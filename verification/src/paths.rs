//! File paths as text, with `/` between their parts: the absolute path of
//! the video, the title that its name gives, and the path of the subtitle
//! beside it.

use crate::text::{chars_of, push_chars, push_text, string_of};
use vstd::prelude::*;

verus! {

/// The position of the last `c` in `text`, or -1 where there is none.
pub open spec fn last_index_of(text: Seq<char>, c: char) -> int
    decreases text.len(),
{
    if text.len() == 0 {
        -1
    } else if text.last() == c {
        text.len() - 1
    } else {
        last_index_of(text.drop_last(), c)
    }
}

/// The last position of `c` is one, and no `c` stands behind it.
pub proof fn lemma_last_index_of(text: Seq<char>, c: char)
    ensures
        -1 <= last_index_of(text, c) < text.len(),
        last_index_of(text, c) >= 0 ==> text[last_index_of(text, c)] == c,
        forall|i: int| last_index_of(text, c) < i < text.len() ==> text[i] != c,
    decreases text.len(),
{
    if text.len() > 0 && text.last() != c {
        let front = text.drop_last();
        lemma_last_index_of(front, c);
        assert forall|i: int| last_index_of(text, c) < i < text.len() implies text[i] != c by {
            if i < front.len() {
                assert(front[i] == text[i]);
            }
        }
    }
}

/// `path` as seen from the directory `base`: `path` itself where it starts
/// at the root, else `base`, a `/` where `base` does not end in one, and
/// `path`.
pub open spec fn joined(base: Seq<char>, path: Seq<char>) -> Seq<char> {
    if path.len() > 0 && path[0] == '/' {
        path
    } else if base.len() == 0 || base.last() == '/' {
        base + path
    } else {
        base + seq!['/'] + path
    }
}

/// Where the name of the file starts in `path`: behind the last `/`.
pub open spec fn name_start(path: Seq<char>) -> int {
    last_index_of(path, '/') + 1
}

/// The name of the file that `path` leads to: what stands behind the last
/// `/`.
pub open spec fn file_name(path: Seq<char>) -> Seq<char> {
    path.subrange(name_start(path), path.len() as int)
}

/// How many characters of a file name come before its last extension. A
/// name without a dot has no extension, and neither has one whose only dot
/// is its first character.
pub open spec fn stem_len(name: Seq<char>) -> int {
    if last_index_of(name, '.') <= 0 {
        name.len() as int
    } else {
        last_index_of(name, '.')
    }
}

/// A file name without its last extension.
pub open spec fn file_stem(name: Seq<char>) -> Seq<char> {
    name.subrange(0, stem_len(name))
}

/// The title that the file name of `path` gives: the name without its last
/// extension.
pub open spec fn title_of(path: Seq<char>) -> Seq<char> {
    file_stem(file_name(path))
}

/// A title holds no `/`: it is taken from the name of the file alone.
pub proof fn lemma_title_has_no_separator(path: Seq<char>)
    ensures
        forall|i: int| 0 <= i < title_of(path).len() ==> title_of(path)[i] != '/',
{
    lemma_last_index_of(path, '/');
    lemma_last_index_of(file_name(path), '.');
}

/// The path of the subtitle that belongs to the video at `path`: the same
/// path with `srt` in place of the last extension. A path that names no file
/// is left as it is.
pub open spec fn subtitle_path_of(path: Seq<char>) -> Seq<char> {
    if file_name(path).len() == 0 {
        path
    } else {
        path.subrange(0, name_start(path) + stem_len(file_name(path))) + ".srt"@
    }
}

/// The position of the last `c` in `chars[from..]`, counted from `from`, or
/// nothing where there is none.
fn find_last(chars: &Vec<char>, from: usize, c: char) -> (found: Option<usize>)
    requires
        from <= chars.len(),
    ensures
        match found {
            Some(i) => from + i < chars.len() && i == last_index_of(
                chars@.subrange(from as int, chars.len() as int),
                c,
            ),
            None => last_index_of(chars@.subrange(from as int, chars.len() as int), c) == -1,
        },
{
    let ghost whole = chars@.subrange(from as int, chars.len() as int);
    let mut end: usize = chars.len();
    assert(whole.take((end - from) as int) =~= whole);
    while end > from
        invariant
            from <= end <= chars.len(),
            whole == chars@.subrange(from as int, chars.len() as int),
            last_index_of(whole, c) == last_index_of(whole.take((end - from) as int), c),
        decreases end,
    {
        if chars[end - 1] == c {
            return Some(end - 1 - from);
        }
        assert(whole.take((end - from) as int).drop_last() =~= whole.take((end - 1 - from) as int));
        end = end - 1;
    }
    None
}

/// `path` as seen from the directory `base`.
pub fn absolute_path(base: &str, path: &str) -> (whole: String)
    ensures
        whole@ == joined(base@, path@),
{
    let p = chars_of(path);
    if p.len() > 0 && p[0] == '/' {
        return path.to_owned();
    }
    let b = chars_of(base);
    let mut whole = base.to_owned();
    if b.len() > 0 && b[b.len() - 1] != '/' {
        whole.push('/');
    }
    push_text(&mut whole, path);
    whole
}

/// The title that the file name of `path` gives.
pub fn canonical_title(path: &str) -> (title: String)
    ensures
        title@ == title_of(path@),
{
    let chars = chars_of(path);
    let start: usize = match find_last(&chars, 0, '/') {
        Some(i) => i + 1,
        None => 0,
    };
    assert(chars@.subrange(0, chars.len() as int) =~= chars@);
    let end: usize = match find_last(&chars, start, '.') {
        Some(dot) => if dot == 0 {
            chars.len()
        } else {
            start + dot
        },
        None => chars.len(),
    };
    let title = string_of(&chars, start, end);
    title
}

/// The path of the subtitle that belongs to the video at `path`.
pub fn subtitle_path(path: &str) -> (beside: String)
    ensures
        beside@ == subtitle_path_of(path@),
{
    let chars = chars_of(path);
    let start: usize = match find_last(&chars, 0, '/') {
        Some(i) => i + 1,
        None => 0,
    };
    assert(chars@.subrange(0, chars.len() as int) =~= chars@);
    if start == chars.len() {
        return path.to_owned();
    }
    let end: usize = match find_last(&chars, start, '.') {
        Some(dot) => if dot == 0 {
            chars.len()
        } else {
            start + dot
        },
        None => chars.len(),
    };
    let mut beside = String::new();
    push_chars(&mut beside, &chars, 0, end);
    push_text(&mut beside, ".srt");
    beside
}

} // verus!
