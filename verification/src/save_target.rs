//! Where and in which format an image is written: the output format follows
//! the extension of the chosen file name, and PNG is the fallback.
//!
//! A path is read as a sequence of characters. Both `/` and `\` separate its
//! components, on every platform.

use vstd::prelude::*;
use vstd::string::*;

verus! {

/// The formats in which an image can be written.
#[derive(Clone, Copy, Debug, PartialEq, Eq, Structural)]
pub enum OutputFormat {
    Png,
    Jpeg,
    WebP,
}

/// A decision on how to write an image: the path to write to and the format
/// to encode in.
#[derive(Debug, PartialEq, Eq)]
pub struct SaveTarget {
    pub path: String,
    pub format: OutputFormat,
}

/// Whether `c` separates the components of a path.
pub open spec fn is_separator(c: char) -> bool {
    c == '/' || c == '\\'
}

/// The index at which the last component of `path` starts: just past the
/// last separator, or zero when there is none.
pub open spec fn file_name_start(path: Seq<char>) -> int
    decreases path.len(),
{
    if path.len() == 0 {
        0
    } else if is_separator(path.last()) {
        path.len() as int
    } else {
        file_name_start(path.drop_last())
    }
}

/// The last component of `path`; empty when the path is empty or ends in a
/// separator.
pub open spec fn file_name(path: Seq<char>) -> Seq<char> {
    path.skip(file_name_start(path))
}

/// The index of the last dot in `name`, if it holds one.
pub open spec fn last_dot(name: Seq<char>) -> Option<int>
    decreases name.len(),
{
    if name.len() == 0 {
        None
    } else if name.last() == '.' {
        Some(name.len() - 1)
    } else {
        last_dot(name.drop_last())
    }
}

/// Whether `name` names a file: it is not empty and is neither of the two
/// directory names `.` and `..`.
pub open spec fn names_a_file(name: Seq<char>) -> bool {
    &&& name.len() > 0
    &&& name != seq!['.']
    &&& name != seq!['.', '.']
}

/// The extension of a file name: what follows its last dot, unless that dot
/// is the first character or the name names no file.
pub open spec fn extension_of(name: Seq<char>) -> Option<Seq<char>> {
    match last_dot(name) {
        Some(dot) => if dot > 0 && names_a_file(name) {
            Some(name.skip(dot + 1))
        } else {
            None
        },
        None => None,
    }
}

/// Whether `c` is the lower-case letter `letter` or its upper-case form.
pub open spec fn is_letter(c: char, letter: char) -> bool {
    c == letter || c as u32 + 32 == letter as u32
}

/// Whether `text` spells the lower-case `word`, whatever the case of its
/// letters.
pub open spec fn spells(text: Seq<char>, word: Seq<char>) -> bool {
    &&& text.len() == word.len()
    &&& forall|i: int| 0 <= i < word.len() ==> is_letter(#[trigger] text[i], word[i])
}

/// The format that an extension asks for: `png`, `jpg` or `jpeg`, and `webp`
/// are known, in any mix of upper and lower case; every other extension
/// gives PNG.
pub open spec fn format_for(extension: Seq<char>) -> OutputFormat {
    if spells(extension, seq!['j', 'p', 'g']) || spells(extension, seq!['j', 'p', 'e', 'g']) {
        OutputFormat::Jpeg
    } else if spells(extension, seq!['w', 'e', 'b', 'p']) {
        OutputFormat::WebP
    } else {
        OutputFormat::Png
    }
}

/// The format in which an image is written to `path`: the one its extension
/// asks for, and PNG when it has none.
pub open spec fn planned_format(path: Seq<char>) -> OutputFormat {
    match extension_of(file_name(path)) {
        Some(extension) => format_for(extension),
        None => OutputFormat::Png,
    }
}

/// The path that an image is written to when `path` was chosen: a file name
/// without extension gets `.png`; anything else stays as chosen.
pub open spec fn planned_path(path: Seq<char>) -> Seq<char> {
    if names_a_file(file_name(path)) && extension_of(file_name(path)) is None {
        path + seq!['.', 'p', 'n', 'g']
    } else {
        path
    }
}

/// What a scan of the first `upto` characters of a path has found: where
/// the last component starts and where its last dot is.
spec fn scanned(path: Seq<char>, upto: int, start: int, dot: Option<int>) -> bool {
    &&& 0 <= start <= upto <= path.len()
    &&& start == file_name_start(path.take(upto))
    &&& dot == last_dot(path.take(upto).skip(start))
    &&& dot matches Some(at) ==> 0 <= at < upto - start
}

proof fn lemma_scan_step(path: Seq<char>, upto: int, start: int, dot: Option<int>)
    requires
        scanned(path, upto, start, dot),
        upto < path.len(),
    ensures
        is_separator(path[upto]) ==> scanned(path, upto + 1, upto + 1, None),
        !is_separator(path[upto]) && path[upto] == '.' ==> scanned(
            path,
            upto + 1,
            start,
            Some(upto - start),
        ),
        !is_separator(path[upto]) && path[upto] != '.' ==> scanned(path, upto + 1, start, dot),
{
    let before = path.take(upto);
    let after = path.take(upto + 1);
    assert(after.drop_last() =~= before);
    assert(after.last() == path[upto]);
    if is_separator(path[upto]) {
        assert(after.skip(upto + 1) =~= Seq::<char>::empty());
    } else {
        assert(after.skip(start).drop_last() =~= before.skip(start));
        assert(after.skip(start).last() == path[upto]);
    }
}

/// Finds where the last component of `path` starts and where its last dot
/// is, counted from that start.
fn scan(path: &str) -> (found: (usize, usize, Option<usize>))
    ensures
        found.0 == path@.len(),
        found.1 == file_name_start(path@),
        found.1 <= found.0,
        match found.2 {
            Some(at) => last_dot(file_name(path@)) == Some(at as int) && at < found.0 - found.1,
            None => last_dot(file_name(path@)) is None,
        },
{
    let len: usize = path.unicode_len();
    let mut start: usize = 0;
    let mut dot: Option<usize> = None;
    let mut upto: usize = 0;
    proof {
        assert(path@.take(0) =~= Seq::<char>::empty());
        assert(path@.take(0).skip(0) =~= Seq::<char>::empty());
    }
    while upto < len
        invariant
            len == path@.len(),
            upto <= len,
            scanned(
                path@,
                upto as int,
                start as int,
                match dot {
                    Some(at) => Some(at as int),
                    None => None,
                },
            ),
        decreases len - upto,
    {
        let c: char = path.get_char(upto);
        proof {
            lemma_scan_step(
                path@,
                upto as int,
                start as int,
                match dot {
                    Some(at) => Some(at as int),
                    None => None,
                },
            );
        }
        if c == '/' || c == '\\' {
            start = upto + 1;
            dot = None;
        } else if c == '.' {
            dot = Some(upto - start);
        }
        upto = upto + 1;
    }
    proof {
        assert(path@.take(len as int) =~= path@);
    }
    (len, start, dot)
}

/// Tells whether the character at `at` is `letter` in either case.
fn letter_at(path: &str, at: usize, letter: char) -> (same: bool)
    requires
        at < path@.len(),
        'a' <= letter <= 'z',
    ensures
        same == is_letter(path@[at as int], letter),
{
    let c: char = path.get_char(at);
    c == letter || c as u32 + 32 == letter as u32
}

/// Tells whether the `count` characters of `path` from `from` on spell
/// `word` in any case.
fn spells_at(path: &str, from: usize, count: usize, word: &[char]) -> (same: bool)
    requires
        from + count <= path@.len(),
        from + count <= usize::MAX,
        forall|i: int| 0 <= i < word@.len() ==> 'a' <= #[trigger] word@[i] <= 'z',
    ensures
        same == spells(path@.subrange(from as int, from + count), word@),
{
    if count != word.len() {
        return false;
    }
    let ghost text = path@.subrange(from as int, from + count);
    let mut i: usize = 0;
    while i < count
        invariant
            i <= count,
            count == word@.len(),
            from + count <= path@.len(),
            from + count <= usize::MAX,
            text == path@.subrange(from as int, from + count),
            forall|k: int| 0 <= k < word@.len() ==> 'a' <= #[trigger] word@[k] <= 'z',
            forall|k: int| 0 <= k < i ==> is_letter(#[trigger] text[k], word@[k]),
        decreases count - i,
    {
        if !letter_at(path, from + i, word[i]) {
            assert(!is_letter(text[i as int], word@[i as int]));
            return false;
        }
        i = i + 1;
    }
    true
}

/// Tells which format the extension that starts at `from` asks for.
fn format_at(path: &str, from: usize, len: usize) -> (format: OutputFormat)
    requires
        from <= len,
        len == path@.len(),
    ensures
        format == format_for(path@.skip(from as int)),
{
    assert(path@.skip(from as int) =~= path@.subrange(from as int, from + (len - from)));
    let count: usize = len - from;
    let jpg: [char; 3] = ['j', 'p', 'g'];
    let jpeg: [char; 4] = ['j', 'p', 'e', 'g'];
    let webp: [char; 4] = ['w', 'e', 'b', 'p'];
    assert(jpg@ =~= seq!['j', 'p', 'g']);
    assert(jpeg@ =~= seq!['j', 'p', 'e', 'g']);
    assert(webp@ =~= seq!['w', 'e', 'b', 'p']);
    if spells_at(path, from, count, jpg.as_slice()) || spells_at(
        path,
        from,
        count,
        jpeg.as_slice(),
    ) {
        OutputFormat::Jpeg
    } else if spells_at(path, from, count, webp.as_slice()) {
        OutputFormat::WebP
    } else {
        OutputFormat::Png
    }
}

/// Tells whether the last component of `path`, which starts at `start`,
/// names a file.
fn names_a_file_at(path: &str, start: usize, len: usize) -> (named: bool)
    requires
        start <= len,
        len == path@.len(),
    ensures
        named == names_a_file(path@.skip(start as int)),
{
    let ghost name = path@.skip(start as int);
    if len == start {
        false
    } else if len - start == 1 {
        let only: char = path.get_char(start);
        proof {
            assert(name[0] == only);
            if only == '.' {
                assert(name =~= seq!['.']);
            } else {
                assert(seq!['.'][0] == '.');
            }
        }
        only != '.'
    } else if len - start == 2 {
        let first: char = path.get_char(start);
        let second: char = path.get_char(start + 1);
        proof {
            assert(name[0] == first && name[1] == second);
            assert(seq!['.'].len() == 1);
            if first == '.' && second == '.' {
                assert(name =~= seq!['.', '.']);
            } else {
                assert(seq!['.', '.'][0] == '.' && seq!['.', '.'][1] == '.');
            }
        }
        !(first == '.' && second == '.')
    } else {
        proof {
            assert(seq!['.'].len() == 1);
            assert(seq!['.', '.'].len() == 2);
        }
        true
    }
}

/// Finds the length of `path`, whether its last component names a file,
/// and where the extension of that name starts, if it has one.
fn find_extension(path: &str) -> (found: (usize, bool, Option<usize>))
    ensures
        found.0 == path@.len(),
        found.1 == names_a_file(file_name(path@)),
        match found.2 {
            Some(from) => from <= found.0 && extension_of(file_name(path@)) == Some(
                path@.skip(from as int),
            ),
            None => extension_of(file_name(path@)) is None,
        },
{
    let (len, start, dot): (usize, usize, Option<usize>) = scan(path);
    let named: bool = names_a_file_at(path, start, len);
    match dot {
        Some(at) => {
            if at > 0 && named {
                proof {
                    assert(file_name(path@).skip(at as int + 1) =~= path@.skip(start + at + 1));
                }
                (len, named, Some(start + at + 1))
            } else {
                (len, named, None)
            }
        },
        None => (len, named, None),
    }
}

/// Tells in which format an image is written to `path`: the one that the
/// extension of its file name asks for, and PNG when there is no extension
/// or none that is known.
pub fn format_of_path(path: &str) -> (format: OutputFormat)
    ensures
        format == planned_format(path@),
{
    let (len, _named, extension): (usize, bool, Option<usize>) = find_extension(path);
    match extension {
        Some(from) => format_at(path, from, len),
        None => OutputFormat::Png,
    }
}

impl SaveTarget {
    /// Decides how to write an image for which the user chose `chosen`.
    ///
    /// The format is the one that the extension of the file name asks for,
    /// and PNG when there is no extension or none that is known. A file
    /// name without extension gets `.png` added; otherwise the path is the
    /// chosen one.
    pub fn for_path(chosen: &str) -> (target: SaveTarget)
        ensures
            target.path@ == planned_path(chosen@),
            target.format == planned_format(chosen@),
    {
        let (len, named, extension): (usize, bool, Option<usize>) = find_extension(chosen);
        match extension {
            Some(from) => SaveTarget {
                path: String::from_str(chosen),
                format: format_at(chosen, from, len),
            },
            None => {
                if named {
                    proof {
                        reveal_strlit(".png");
                        assert(".png"@ =~= seq!['.', 'p', 'n', 'g']);
                    }
                    SaveTarget {
                        path: String::from_str(chosen).concat(".png"),
                        format: OutputFormat::Png,
                    }
                } else {
                    SaveTarget { path: String::from_str(chosen), format: OutputFormat::Png }
                }
            },
        }
    }
}

/// Returns the last component of `path`, the part a user knows the file by.
pub fn file_name_of(path: &str) -> (name: &str)
    ensures
        name@ == file_name(path@),
{
    let (len, start, _dot): (usize, usize, Option<usize>) = scan(path);
    proof {
        assert(path@.skip(start as int) =~= path@.subrange(start as int, len as int));
    }
    path.substring_char(start, len)
}

/// The file name starts just past the last separator of the path: a
/// separator stands right before it unless it starts the path, and none
/// follows.
pub proof fn lemma_file_name_follows_last_separator(path: Seq<char>)
    ensures
        0 <= file_name_start(path) <= path.len(),
        file_name_start(path) > 0 ==> is_separator(path[file_name_start(path) - 1]),
        forall|i: int|
            file_name_start(path) <= i < path.len() ==> !is_separator(#[trigger] path[i]),
    decreases path.len(),
{
    if path.len() > 0 && !is_separator(path.last()) {
        lemma_file_name_follows_last_separator(path.drop_last());
        assert forall|i: int| file_name_start(path) <= i < path.len() implies !is_separator(
            #[trigger] path[i],
        ) by {
            if i < path.len() - 1 {
                assert(path[i] == path.drop_last()[i]);
            }
        }
    }
}

/// The last dot of a name is a dot that no dot follows, and a name has none
/// exactly when it holds no dot at all.
pub proof fn lemma_last_dot_is_the_last(name: Seq<char>)
    ensures
        match last_dot(name) {
            Some(at) => {
                &&& 0 <= at < name.len()
                &&& name[at] == '.'
                &&& forall|i: int| at < i < name.len() ==> #[trigger] name[i] != '.'
            },
            None => forall|i: int| 0 <= i < name.len() ==> #[trigger] name[i] != '.',
        },
    decreases name.len(),
{
    if name.len() > 0 && name.last() != '.' {
        lemma_last_dot_is_the_last(name.drop_last());
        match last_dot(name) {
            Some(at) => {
                assert forall|i: int| at < i < name.len() implies #[trigger] name[i] != '.' by {
                    if i < name.len() - 1 {
                        assert(name[i] == name.drop_last()[i]);
                    }
                }
            },
            None => {
                assert forall|i: int| 0 <= i < name.len() implies #[trigger] name[i] != '.' by {
                    if i < name.len() - 1 {
                        assert(name[i] == name.drop_last()[i]);
                    }
                }
            },
        }
    }
}

/// Whatever the path, there are only two outcomes: the path stays as chosen,
/// or it is a file name without extension and gets `.png` added and is
/// written as PNG.
pub proof fn lemma_planned_path_is_chosen_or_png(path: Seq<char>)
    ensures
        planned_path(path) == path || (planned_path(path) == path + seq!['.', 'p', 'n', 'g']
            && planned_format(path) == OutputFormat::Png),
{
}

/// A path whose file name has one of the known extensions keeps the path
/// and gets the format of that extension.
pub proof fn lemma_known_extension_decides(stem: Seq<char>, extension: Seq<char>)
    requires
        stem.len() > 0,
        forall|i: int| 0 <= i < stem.len() ==> !is_separator(#[trigger] stem[i]) && stem[i] != '.',
        forall|i: int|
            0 <= i < extension.len() ==> !is_separator(#[trigger] extension[i]) && extension[i]
                != '.',
    ensures
        planned_path(stem + seq!['.'] + extension) == stem + seq!['.'] + extension,
        planned_format(stem + seq!['.'] + extension) == format_for(extension),
{
    let path = stem + seq!['.'] + extension;
    lemma_no_separator_no_start(path);
    assert(file_name(path) =~= path);
    lemma_last_dot_before_plain_tail(stem + seq!['.'], extension);
    assert(path.skip(stem.len() as int + 1) =~= extension);
    assert(path[0] == stem[0]);
    assert(seq!['.'][0] == '.');
    assert(seq!['.', '.'][0] == '.');
}

/// A path whose file name holds no dot gets `.png` added and is written as
/// PNG.
pub proof fn lemma_missing_extension_defaults(name: Seq<char>)
    requires
        name.len() > 0,
        forall|i: int| 0 <= i < name.len() ==> !is_separator(#[trigger] name[i]) && name[i] != '.',
    ensures
        planned_path(name) == name + seq!['.', 'p', 'n', 'g'],
        planned_format(name) == OutputFormat::Png,
{
    lemma_no_separator_no_start(name);
    assert(file_name(name) =~= name);
    lemma_no_dot(name);
    assert(seq!['.'][0] == '.');
    assert(seq!['.', '.'][0] == '.');
}

proof fn lemma_no_separator_no_start(path: Seq<char>)
    requires
        forall|i: int| 0 <= i < path.len() ==> !is_separator(#[trigger] path[i]),
    ensures
        file_name_start(path) == 0,
    decreases path.len(),
{
    if path.len() > 0 {
        assert(!is_separator(path[path.len() - 1]));
        lemma_no_separator_no_start(path.drop_last());
    }
}

proof fn lemma_no_dot(name: Seq<char>)
    requires
        forall|i: int| 0 <= i < name.len() ==> #[trigger] name[i] != '.',
    ensures
        last_dot(name) is None,
    decreases name.len(),
{
    if name.len() > 0 {
        assert(name[name.len() - 1] != '.');
        lemma_no_dot(name.drop_last());
    }
}

proof fn lemma_last_dot_before_plain_tail(head: Seq<char>, tail: Seq<char>)
    requires
        head.len() > 0,
        head.last() == '.',
        forall|i: int| 0 <= i < tail.len() ==> #[trigger] tail[i] != '.',
    ensures
        last_dot(head + tail) == Some(head.len() - 1),
    decreases tail.len(),
{
    if tail.len() == 0 {
        assert(head + tail =~= head);
    } else {
        assert((head + tail).last() == tail[tail.len() - 1]);
        assert((head + tail).drop_last() =~= head + tail.drop_last());
        lemma_last_dot_before_plain_tail(head, tail.drop_last());
    }
}

} // verus!
