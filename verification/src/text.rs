//! String helpers whose results are stated over sequences of characters.

use vstd::prelude::*;

verus! {

/// The code points with Unicode's `White_Space` property.
pub open spec fn white_space(c: char) -> bool {
    let n = c as u32;
    ||| 0x09 <= n <= 0x0D
    ||| n == 0x20
    ||| n == 0x85
    ||| n == 0xA0
    ||| n == 0x1680
    ||| 0x2000 <= n <= 0x200A
    ||| n == 0x2028
    ||| n == 0x2029
    ||| n == 0x202F
    ||| n == 0x205F
    ||| n == 0x3000
}

/// `s` without its leading white space.
pub open spec fn trimmed_start(s: Seq<char>) -> Seq<char>
    decreases s.len(),
{
    if s.len() > 0 && white_space(s.first()) {
        trimmed_start(s.drop_first())
    } else {
        s
    }
}

/// `s` without its trailing white space.
pub open spec fn trimmed_end(s: Seq<char>) -> Seq<char>
    decreases s.len(),
{
    if s.len() > 0 && white_space(s.last()) {
        trimmed_end(s.drop_last())
    } else {
        s
    }
}

/// `s` without white space at either end.
pub open spec fn trimmed(s: Seq<char>) -> Seq<char> {
    trimmed_end(trimmed_start(s))
}

/// An upper-case ASCII letter in lower case, any other character unchanged.
pub open spec fn ascii_lower(c: char) -> char {
    if 'A' <= c && c <= 'Z' {
        (c as u32 + 32) as char
    } else {
        c
    }
}

/// `s` with its ASCII letters in lower case.
pub open spec fn ascii_lowered(s: Seq<char>) -> Seq<char> {
    s.map_values(|c: char| ascii_lower(c))
}

/// Whether `part` stands in `s` as a contiguous run starting at `at`.
pub open spec fn occurs_at(s: Seq<char>, part: Seq<char>, at: int) -> bool {
    &&& 0 <= at <= s.len() - part.len()
    &&& s.subrange(at, at + part.len()) == part
}

/// Whether `part` stands somewhere in `s` as a contiguous run.
pub open spec fn occurs_in(s: Seq<char>, part: Seq<char>) -> bool {
    exists|at: int| occurs_at(s, part, at)
}

/// The parts in order, with `separator` between neighbours.
pub open spec fn joined(parts: Seq<Seq<char>>, separator: Seq<char>) -> Seq<char>
    decreases parts.len(),
{
    if parts.len() == 0 {
        Seq::empty()
    } else if parts.len() == 1 {
        parts[0]
    } else {
        joined(parts.drop_last(), separator) + separator + parts.last()
    }
}

/// The views of a sequence of strings.
pub open spec fn texts(strings: Seq<String>) -> Seq<Seq<char>> {
    strings.map_values(|s: String| s@)
}

/// The view of an optional string.
pub open spec fn opt_text(s: Option<String>) -> Option<Seq<char>> {
    match s {
        Some(t) => Some(t@),
        None => None,
    }
}

/// The string, borrowed, if there is one.
pub fn opt_str(text: &Option<String>) -> (view: Option<&str>)
    ensures
        match view {
            Some(t) => opt_text(*text) == Some(t@),
            None => *text is None,
        },
{
    match text {
        Some(t) => Some(t.as_str()),
        None => None,
    }
}

/// A copy of the string, if there is one.
pub fn clone_opt(s: &Option<String>) -> (copy: Option<String>)
    ensures
        opt_text(copy) == opt_text(*s),
{
    match s {
        Some(t) => Some(t.clone()),
        None => None,
    }
}

/// Copies of the strings.
pub fn clone_texts(names: &[String]) -> (copies: Vec<String>)
    ensures
        texts(copies@) == texts(names@),
{
    let mut copies: Vec<String> = Vec::new();
    let mut i: usize = 0;
    while i < names.len()
        invariant
            i <= names.len(),
            copies@.len() == i,
            forall|k: int| 0 <= k < i ==> (#[trigger] copies@[k])@ == names@[k]@,
        decreases names.len() - i,
    {
        copies.push(names[i].clone());
        i = i + 1;
    }
    assert(texts(copies@) =~= texts(names@));
    copies
}

/// Whether two strings hold the same characters.
pub fn same_text(a: &str, b: &str) -> (same: bool)
    ensures
        same == (a@ == b@),
{
    a.to_owned() == b.to_owned()
}

/// The characters of `s`.
pub fn char_vec(s: &str) -> (chars: Vec<char>)
    ensures
        chars@ == s@,
{
    let mut chars: Vec<char> = Vec::new();
    for c in it: s.chars()
        invariant
            it.seq() == s@,
            chars@ == s@.take(it.index() as int),
    {
        chars.push(c);
    }
    chars
}

/// `text` without the leading `prefix`, or `None` where it does not start so.
pub fn strip_prefix(text: &str, prefix: &str) -> (rest: Option<String>)
    ensures
        match rest {
            Some(r) => text@ == prefix@ + r@,
            None => !prefix@.is_prefix_of(text@),
        },
{
    let total: usize = text.unicode_len();
    let cut: usize = prefix.unicode_len();
    if total < cut {
        return None;
    }
    let head = text.substring_char(0, cut);
    if same_text(head, prefix) {
        let tail = text.substring_char(cut, total);
        assert(text@ =~= prefix@ + tail@);
        Some(tail.to_owned())
    } else {
        None
    }
}

/// Whether `c` has Unicode's `White_Space` property.
pub fn is_white_space(c: char) -> (yes: bool)
    ensures
        yes == white_space(c),
{
    let n: u32 = c as u32;
    (0x09 <= n && n <= 0x0D) || n == 0x20 || n == 0x85 || n == 0xA0 || n == 0x1680 || (0x2000 <= n
        && n <= 0x200A) || n == 0x2028 || n == 0x2029 || n == 0x202F || n == 0x205F || n == 0x3000
}

/// `text` without white space at either end.
pub fn trim(text: &str) -> (trimmed_text: String)
    ensures
        trimmed_text@ == trimmed(text@),
{
    let chars = char_vec(text);
    let mut start: usize = 0;
    assert(text@.skip(0) =~= text@);
    while start < chars.len() && is_white_space(chars[start])
        invariant
            chars@ == text@,
            start <= chars.len(),
            trimmed_start(text@) == trimmed_start(text@.skip(start as int)),
        decreases chars.len() - start,
    {
        assert(text@.skip(start as int).drop_first() =~= text@.skip(start + 1));
        start = start + 1;
    }
    let ghost body = text@.skip(start as int);
    assert(trimmed_start(text@) == body);
    let mut end: usize = chars.len();
    assert(text@.subrange(start as int, end as int) =~= body);
    while start < end && is_white_space(chars[end - 1])
        invariant
            chars@ == text@,
            start <= end <= chars.len(),
            trimmed_end(body) == trimmed_end(text@.subrange(start as int, end as int)),
        decreases end,
    {
        assert(text@.subrange(start as int, end as int).drop_last() =~= text@.subrange(
            start as int,
            end - 1,
        ));
        end = end - 1;
    }
    text.substring_char(start, end).to_owned()
}

/// The characters of `text`, its ASCII letters in lower case.
pub fn lowered_chars(text: &str) -> (lowered: Vec<char>)
    ensures
        lowered@ == ascii_lowered(text@),
{
    let chars = char_vec(text);
    let mut lowered: Vec<char> = Vec::new();
    let mut i: usize = 0;
    while i < chars.len()
        invariant
            chars@ == text@,
            i <= chars.len(),
            lowered@ == ascii_lowered(text@.take(i as int)),
        decreases chars.len() - i,
    {
        let c = chars[i];
        if 'A' <= c && c <= 'Z' {
            lowered.push((c as u8 + 32) as char);
        } else {
            lowered.push(c);
        }
        i = i + 1;
    }
    assert(text@.take(i as int) =~= text@);
    lowered
}

/// Whether `part` stands in `chars` as a contiguous run.
pub fn contains(chars: &Vec<char>, part: &str) -> (found: bool)
    ensures
        found == occurs_in(chars@, part@),
{
    let wanted = char_vec(part);
    if chars.len() < wanted.len() {
        return false;
    }
    let last: usize = chars.len() - wanted.len();
    let mut at: usize = 0;
    while at <= last
        invariant
            wanted@ == part@,
            last == chars.len() - wanted.len(),
            at <= last + 1,
            forall|i: int| 0 <= i < at ==> !occurs_at(chars@, part@, i),
        decreases last + 1 - at,
    {
        let mut k: usize = 0;
        while k < wanted.len() && chars[at + k] == wanted[k]
            invariant
                wanted@ == part@,
                last == chars.len() - wanted.len(),
                at <= last,
                k <= wanted@.len(),
                forall|j: int| 0 <= j < k ==> chars@[at + j] == wanted@[j],
            decreases wanted.len() - k,
        {
            k = k + 1;
        }
        if k == wanted.len() {
            assert(chars@.subrange(at as int, at + part@.len()) =~= part@);
            assert(occurs_at(chars@, part@, at as int));
            return true;
        }
        assert(chars@.subrange(at as int, at + part@.len())[k as int] != part@[k as int]);
        if at == last {
            return false;
        }
        at = at + 1;
    }
    false
}

/// The parts in order, with `separator` between neighbours.
pub fn join(parts: &Vec<String>, separator: &str) -> (text: String)
    ensures
        text@ == joined(texts(parts@), separator@),
{
    let mut text = String::new();
    let mut i: usize = 0;
    while i < parts.len()
        invariant
            i <= parts.len(),
            text@ == joined(texts(parts@).take(i as int), separator@),
        decreases parts.len() - i,
    {
        assert(texts(parts@).take(i + 1).drop_last() =~= texts(parts@).take(i as int));
        if i > 0 {
            text.append(separator);
        }
        text.append(parts[i].as_str());
        i = i + 1;
    }
    assert(texts(parts@).take(i as int) =~= texts(parts@));
    text
}

/// How `{:?}` shows a string: in double quotes, with escapes.
pub uninterp spec fn debug_text(s: Seq<char>) -> Seq<char>;

/// The `Debug` text of a `str`.
#[verifier::external_body]
pub(crate) fn quoted(s: &str) -> (text: String)
    ensures
        text@ == debug_text(s@),
{
    format!("{:?}", s)
}

}
