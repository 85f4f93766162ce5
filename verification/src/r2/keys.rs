//! Object keys read as paths.
//!
//! The store knows no directories. A key is a sequence of characters, and the
//! delimiter `/` cuts it into segments; a key that ends with the delimiter
//! stands for a folder.

use vstd::prelude::*;
use vstd::std_specs::iter::IteratorSpec;
use vstd::string::*;

verus! {

/// The character that separates the segments of a key.
pub const DELIMITER: char = '/';

/// Whether `s` is non-empty and its last character is the delimiter.
pub open spec fn ends_with_delimiter(s: Seq<char>) -> bool {
    s.len() > 0 && s.last() == DELIMITER
}

/// `s` itself when it already ends with the delimiter, else `s` followed by
/// one delimiter.
pub open spec fn as_folder(s: Seq<char>) -> Seq<char> {
    if ends_with_delimiter(s) {
        s
    } else {
        s.push(DELIMITER)
    }
}

/// The length of `s` once every delimiter at its end is dropped.
pub open spec fn trimmed_len(s: Seq<char>) -> nat
    decreases s.len(),
{
    if ends_with_delimiter(s) {
        trimmed_len(s.drop_last())
    } else {
        s.len()
    }
}

/// `s` without the delimiters at its end.
pub open spec fn trim_delimiters(s: Seq<char>) -> Seq<char> {
    s.take(trimmed_len(s) as int)
}

/// The index at which the last segment of `s` begins: just behind the last
/// delimiter, or 0 when `s` holds none.
pub open spec fn segment_start(s: Seq<char>) -> nat
    decreases s.len(),
{
    if s.len() == 0 {
        0
    } else if s.last() == DELIMITER {
        s.len()
    } else {
        segment_start(s.drop_last())
    }
}

/// What follows the last delimiter of `s`; all of `s` when it holds none.
pub open spec fn last_segment(s: Seq<char>) -> Seq<char> {
    s.skip(segment_start(s) as int)
}

/// The display name of a folder prefix: its last segment once the delimiters
/// at its end are dropped.
pub open spec fn folder_name(prefix: Seq<char>) -> Seq<char> {
    last_segment(trim_delimiters(prefix))
}

/// Whether `s` holds no delimiter.
pub open spec fn no_delimiter(s: Seq<char>) -> bool {
    forall|i: int| 0 <= i < s.len() ==> s[i] != DELIMITER
}

/// A closed path ends with the delimiter, and closing it again changes
/// nothing: a path names the same folder with or without the delimiter at
/// its end.
pub proof fn lemma_as_folder_closed(path: Seq<char>)
    ensures
        ends_with_delimiter(as_folder(path)),
        as_folder(as_folder(path)) == as_folder(path),
        ends_with_delimiter(path) ==> as_folder(path) == path,
{
}

/// `trimmed_len` cuts `s` exactly in front of its trailing run of delimiters.
pub proof fn lemma_trimmed_len(s: Seq<char>)
    ensures
        trimmed_len(s) <= s.len(),
        !ends_with_delimiter(trim_delimiters(s)),
        forall|i: int| trimmed_len(s) <= i < s.len() ==> s[i] == DELIMITER,
    decreases s.len(),
{
    if ends_with_delimiter(s) {
        let t = s.drop_last();
        lemma_trimmed_len(t);
        assert forall|i: int| trimmed_len(s) <= i < s.len() implies s[i] == DELIMITER by {
            if i < t.len() {
                assert(t[i] == s[i]);
            }
        }
    }
}

/// `segment_start` names the one cut of `s` with no delimiter behind it and a
/// delimiter, or the start of `s`, directly in front of it.
pub proof fn lemma_segment_start(s: Seq<char>)
    ensures
        segment_start(s) <= s.len(),
        no_delimiter(last_segment(s)),
        segment_start(s) == 0 || s[segment_start(s) - 1] == DELIMITER,
    decreases s.len(),
{
    if s.len() == 0 {
    } else if s.last() == DELIMITER {
    } else {
        let t = s.drop_last();
        lemma_segment_start(t);
        assert(last_segment(s) =~= last_segment(t).push(s.last()));
    }
}

/// The characters of `s`, in order.
pub fn chars_of(s: &str) -> (v: Vec<char>)
    ensures
        v@ == s@,
{
    let mut v: Vec<char> = Vec::new();
    for c in it: s.chars()
        invariant
            it.seq() == s@,
            v@ == s@.take(it.index() as int),
    {
        v.push(c);
    }
    v
}

/// The length of `chars` without the delimiters at its end.
fn trimmed_end(chars: &Vec<char>) -> (n: usize)
    ensures
        n == trimmed_len(chars@),
{
    let mut n: usize = chars.len();
    assert(chars@.take(n as int) =~= chars@);
    while n > 0 && chars[n - 1] == DELIMITER
        invariant
            n <= chars.len(),
            trimmed_len(chars@) == trimmed_len(chars@.take(n as int)),
        decreases n,
    {
        assert(chars@.take(n as int).drop_last() =~= chars@.take(n - 1));
        n -= 1;
    }
    n
}

/// Where the last segment of the first `end` characters of `chars` begins.
fn segment_begin(chars: &Vec<char>, end: usize) -> (n: usize)
    requires
        end <= chars.len(),
    ensures
        n == segment_start(chars@.take(end as int)),
        n <= end,
{
    let mut n: usize = end;
    while n > 0 && chars[n - 1] != DELIMITER
        invariant
            n <= end <= chars.len(),
            segment_start(chars@.take(end as int)) == segment_start(chars@.take(n as int)),
        decreases n,
    {
        assert(chars@.take(n as int).drop_last() =~= chars@.take(n - 1));
        n -= 1;
    }
    n
}

/// Whether `key` names a folder, that is, ends with the delimiter.
pub fn is_folder_key(key: &str) -> (b: bool)
    ensures
        b == ends_with_delimiter(key@),
{
    let chars = chars_of(key);
    let n: usize = chars.len();
    n > 0 && chars[n - 1] == DELIMITER
}

/// The key of the folder that `path` names: `path` with a delimiter at its
/// end, added only where it is missing.
pub fn folder_key(path: &str) -> (key: String)
    ensures
        key@ == as_folder(path@),
{
    if is_folder_key(path) {
        String::from_str(path)
    } else {
        proof {
            reveal_strlit("/");
        }
        String::from_str(path).concat("/")
    }
}

/// The name under which a file is listed: the last segment of its key.
pub fn file_name(key: &str) -> (name: String)
    ensures
        name@ == last_segment(key@),
{
    let chars = chars_of(key);
    let end: usize = chars.len();
    assert(chars@.take(end as int) =~= chars@);
    let start: usize = segment_begin(&chars, end);
    String::from_str(key.substring_char(start, end))
}

/// The name under which a folder is listed: the last segment of its prefix
/// once the delimiters at the end of the prefix are dropped.
pub fn folder_display_name(prefix: &str) -> (name: String)
    ensures
        name@ == folder_name(prefix@),
{
    let chars = chars_of(prefix);
    let end: usize = trimmed_end(&chars);
    proof {
        lemma_trimmed_len(prefix@);
    }
    let start: usize = segment_begin(&chars, end);
    String::from_str(prefix.substring_char(start, end))
}

} // verus!
