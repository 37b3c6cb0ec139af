//! Comparing and cutting strings, stated over their characters.
use vstd::prelude::*;
use vstd::string::*;
use vstd::utf8;

verus! {

/// The first position of `c` in `s`, or the length of `s` where there is none.
pub open spec fn index_of_char(s: Seq<char>, c: char) -> int
    decreases s.len(),
{
    if s.len() == 0 {
        0
    } else if s[0] == c {
        0
    } else {
        1 + index_of_char(s.drop_first(), c)
    }
}

/// Whether `c` separates words: a space, a tab or the end of a line.
pub open spec fn is_blank(c: char) -> bool {
    c == ' ' || c == '\t' || c == '\r' || c == '\n'
}

/// `s` without the blanks at its start.
pub open spec fn trim_start(s: Seq<char>) -> Seq<char>
    decreases s.len(),
{
    if s.len() > 0 && is_blank(s[0]) {
        trim_start(s.drop_first())
    } else {
        s
    }
}

/// `s` without the blanks at its end.
pub open spec fn trim_end(s: Seq<char>) -> Seq<char>
    decreases s.len(),
{
    if s.len() > 0 && is_blank(s.last()) {
        trim_end(s.drop_last())
    } else {
        s
    }
}

/// `s` without the blanks around it.
pub open spec fn trimmed(s: Seq<char>) -> Seq<char> {
    trim_end(trim_start(s))
}

/// The lower-case form of an ASCII letter; any other character is its own.
pub open spec fn lower_char(c: char) -> char {
    if 'A' <= c <= 'Z' {
        ((c as u32) + 32) as char
    } else {
        c
    }
}

/// Whether two texts agree when the case of ASCII letters is ignored.
pub open spec fn same_ignoring_case(a: Seq<char>, b: Seq<char>) -> bool {
    &&& a.len() == b.len()
    &&& forall|i: int| 0 <= i < a.len() ==> lower_char(#[trigger] a[i]) == lower_char(b[i])
}

/// Whether `a` and `b` hold the same characters.
pub fn same_text(a: &str, b: &str) -> (r: bool)
    ensures
        r == (a@ == b@),
{
    let x = a.as_bytes();
    let y = b.as_bytes();
    proof {
        utf8::encode_utf8_decode_utf8(a@);
        utf8::encode_utf8_decode_utf8(b@);
    }
    if x.len() != y.len() {
        return false;
    }
    let mut i: usize = 0;
    while i < x.len()
        invariant
            i <= x.len(),
            x.len() == y.len(),
            x@ == a.spec_bytes(),
            y@ == b.spec_bytes(),
            forall|j: int| 0 <= j < i ==> x@[j] == y@[j],
        decreases x.len() - i,
    {
        if x[i] != y[i] {
            return false;
        }
        i += 1;
    }
    assert(x@ =~= y@);
    true
}

fn lower_byte(b: u8) -> (r: u8)
    requires
        b < 128,
    ensures
        r as char == lower_char(b as char),
        r < 128,
{
    if 65 <= b && b <= 90 {
        b + 32
    } else {
        b
    }
}

/// Whether two ASCII texts agree when the case of letters is ignored.
pub fn same_text_ignoring_case(a: &str, b: &str) -> (r: bool)
    requires
        utf8::is_ascii_chars(a@),
        utf8::is_ascii_chars(b@),
    ensures
        r == same_ignoring_case(a@, b@),
{
    let x = a.as_bytes();
    let y = b.as_bytes();
    proof {
        utf8::is_ascii_chars_encode_utf8(a@);
        utf8::is_ascii_chars_encode_utf8(b@);
    }
    if x.len() != y.len() {
        return false;
    }
    let mut i: usize = 0;
    while i < x.len()
        invariant
            i <= x.len(),
            x.len() == y.len(),
            x.len() == a@.len(),
            y.len() == b@.len(),
            utf8::is_ascii_chars(a@),
            utf8::is_ascii_chars(b@),
            forall|j: int| 0 <= j < a@.len() ==> #[trigger] a@[j] as u8 == x@[j],
            forall|j: int| 0 <= j < b@.len() ==> #[trigger] b@[j] as u8 == y@[j],
            forall|j: int|
                0 <= j < i ==> lower_char(#[trigger] a@[j]) == lower_char(b@[j]),
        decreases x.len() - i,
    {
        assert(a@[i as int] as u8 == x@[i as int]);
        assert(b@[i as int] as u8 == y@[i as int]);
        assert(x@[i as int] as char == a@[i as int]);
        assert(y@[i as int] as char == b@[i as int]);
        let p: u8 = lower_byte(x[i]);
        let q: u8 = lower_byte(y[i]);
        assert(p as char == q as char ==> p == q);
        if p != q {
            assert(lower_char(a@[i as int]) != lower_char(b@[i as int]));
            return false;
        }
        i += 1;
    }
    true
}

pub(crate) proof fn lemma_index_of_char(s: Seq<char>, c: char, i: int)
    requires
        0 <= i <= s.len(),
        forall|j: int| 0 <= j < i ==> s[j] != c,
        i < s.len() ==> s[i] == c,
    ensures
        index_of_char(s, c) == i,
    decreases s.len(),
{
    if s.len() > 0 && s[0] != c {
        lemma_index_of_char(s.drop_first(), c, i - 1);
    }
}

pub(crate) proof fn lemma_index_of_char_bounds(s: Seq<char>, c: char)
    ensures
        0 <= index_of_char(s, c) <= s.len(),
        index_of_char(s, c) < s.len() ==> s[index_of_char(s, c)] == c,
        forall|j: int| 0 <= j < index_of_char(s, c) ==> s[j] != c,
    decreases s.len(),
{
    if s.len() > 0 && s[0] != c {
        let t = s.drop_first();
        lemma_index_of_char_bounds(t, c);
        let k = index_of_char(t, c);
        assert forall|j: int| 0 <= j < k + 1 implies s[j] != c by {
            if j > 0 {
                assert(t[j - 1] == s[j]);
            }
        }
    }
}

/// The first position of `c` in `s`, counted in characters.
pub fn find_char(s: &str, c: char) -> (r: usize)
    ensures
        r == index_of_char(s@, c),
        r <= s@.len(),
{
    let n: usize = s.unicode_len();
    let mut i: usize = 0;
    for x in it: s.chars()
        invariant
            it.seq() == s@,
            i == it.index(),
            n == s@.len(),
            forall|j: int| 0 <= j < i ==> s@[j] != c,
    {
        if x == c {
            proof {
                lemma_index_of_char(s@, c, i as int);
            }
            return i;
        }
        i += 1;
    }
    proof {
        lemma_index_of_char(s@, c, s@.len() as int);
    }
    n
}

fn is_blank_char(c: char) -> (r: bool)
    ensures
        r == is_blank(c),
{
    c == ' ' || c == '\t' || c == '\r' || c == '\n'
}

pub(crate) proof fn lemma_trim_start(s: Seq<char>, i: int)
    requires
        0 <= i <= s.len(),
        forall|j: int| 0 <= j < i ==> is_blank(#[trigger] s[j]),
        i < s.len() ==> !is_blank(s[i]),
    ensures
        trim_start(s) == s.skip(i),
    decreases i,
{
    if i > 0 {
        lemma_trim_start(s.drop_first(), i - 1);
        assert(s.drop_first().skip(i - 1) =~= s.skip(i));
    } else {
        assert(s.skip(0) =~= s);
    }
}

pub(crate) proof fn lemma_trim_end(s: Seq<char>, i: int)
    requires
        0 <= i <= s.len(),
        forall|j: int| i <= j < s.len() ==> is_blank(#[trigger] s[j]),
        i > 0 ==> !is_blank(s[i - 1]),
    ensures
        trim_end(s) == s.take(i),
    decreases s.len() - i,
{
    if i < s.len() {
        lemma_trim_end(s.drop_last(), i);
        assert(s.drop_last().take(i) =~= s.take(i));
    } else {
        assert(s.take(i) =~= s);
    }
}

/// `s` without the blanks around it.
pub fn trim_blanks(s: &str) -> (r: &str)
    ensures
        r@ == trimmed(s@),
{
    let n: usize = s.unicode_len();
    let mut start: usize = 0;
    while start < n && is_blank_char(s.get_char(start))
        invariant
            start <= n,
            n == s@.len(),
            forall|j: int| 0 <= j < start ==> is_blank(#[trigger] s@[j]),
        decreases n - start,
    {
        start += 1;
    }
    let mut end: usize = n;
    while start < end && is_blank_char(s.get_char(end - 1))
        invariant
            start <= end <= n,
            n == s@.len(),
            forall|j: int| end <= j < n ==> is_blank(#[trigger] s@[j]),
        decreases end,
    {
        end -= 1;
    }
    proof {
        lemma_trim_start(s@, start as int);
        let rest = s@.skip(start as int);
        lemma_trim_end(rest, end - start);
        assert(rest.take(end - start) =~= s@.subrange(start as int, end as int));
    }
    s.substring_char(start, end)
}

/// `a` followed by `b`.
pub fn concat2(a: &str, b: &str) -> (r: String)
    ensures
        r@ == a@ + b@,
{
    let mut out: String = a.to_owned();
    out.append(b);
    out
}

/// `a`, `b` and `c` in a row.
pub fn concat3(a: &str, b: &str, c: &str) -> (r: String)
    ensures
        r@ == a@ + b@ + c@,
{
    let mut out: String = concat2(a, b);
    out.append(c);
    out
}

/// The position of a character is the number of characters before its first occurrence: none of
/// them is the character, and the one at the position is, where there is one at all.
pub proof fn law_first_occurrence(before: Seq<char>, c: char, after: Seq<char>)
    requires
        !before.contains(c),
    ensures
        index_of_char(before + seq![c] + after, c) == before.len(),
        index_of_char(before, c) == before.len(),
{
    let whole = before + seq![c] + after;
    assert forall|j: int| 0 <= j < before.len() implies whole[j] != c && before[j] != c by {
        assert(before.contains(before[j]));
    }
    lemma_index_of_char(whole, c, before.len() as int);
    lemma_index_of_char(before, c, before.len() as int);
}

/// A text of nothing but spaces, tabs, carriage returns and line feeds.
pub open spec fn is_blank_text(s: Seq<char>) -> bool {
    forall|i: int| 0 <= i < s.len() ==> " \t\r\n"@.contains(#[trigger] s[i])
}

/// Whether a text neither begins nor ends with a space, a tab, a carriage return or a line feed.
pub open spec fn has_firm_ends(s: Seq<char>) -> bool {
    s.len() > 0 ==> !" \t\r\n"@.contains(s[0]) && !" \t\r\n"@.contains(s.last())
}

pub(crate) proof fn lemma_blank(c: char)
    ensures
        " \t\r\n"@.contains(c) <==> is_blank(c),
{
    reveal_strlit(" \t\r\n");
    let all = " \t\r\n"@;
    assert(all[0] == ' ' && all[1] == '\t' && all[2] == '\r' && all[3] == '\n');
}

/// Trimming takes off the blanks on both sides, all of them and nothing else: what is left of a
/// text that has no blank at its ends, put between blanks, is that text.
pub proof fn law_trimming(left: Seq<char>, s: Seq<char>, right: Seq<char>)
    requires
        is_blank_text(left),
        is_blank_text(right),
        has_firm_ends(s),
    ensures
        trimmed(left + s + right) == s,
{
    let whole = left + s + right;
    assert forall|c: char| " \t\r\n"@.contains(c) <==> #[trigger] is_blank(c) by {
        lemma_blank(c);
    }
    if s.len() == 0 {
        assert forall|j: int| 0 <= j < whole.len() implies is_blank(#[trigger] whole[j]) by {
            if j < left.len() {
                assert(whole[j] == left[j]);
            } else {
                assert(whole[j] == right[j - left.len()]);
            }
        }
        lemma_trim_start(whole, whole.len() as int);
        assert(whole.skip(whole.len() as int) =~= s);
        lemma_trim_end(s, 0);
        assert(s.take(0) =~= s);
    } else {
        assert forall|j: int| 0 <= j < left.len() implies is_blank(#[trigger] whole[j]) by {
            assert(whole[j] == left[j]);
        }
        assert(whole[left.len() as int] == s[0]);
        assert(is_blank(s[0]) == " \t\r\n"@.contains(s[0]));
        lemma_trim_start(whole, left.len() as int);
        let rest = s + right;
        assert(whole.skip(left.len() as int) =~= rest);
        assert forall|j: int| s.len() <= j < rest.len() implies is_blank(#[trigger] rest[j]) by {
            assert(rest[j] == right[j - s.len()]);
        }
        assert(rest[s.len() - 1] == s.last());
        assert(is_blank(s.last()) == " \t\r\n"@.contains(s.last()));
        lemma_trim_end(rest, s.len() as int);
        assert(rest.take(s.len() as int) =~= s);
    }
}

/// Ignoring case identifies each capital ASCII letter with its small one, and no two other
/// characters: two texts agree exactly where they are of one length and differ at no position but
/// by the case of such a letter.
pub proof fn law_ignoring_case(a: Seq<char>, b: Seq<char>)
    ensures
        same_ignoring_case(a, b) <==> a.len() == b.len() && forall|i: int|
            0 <= i < a.len() ==> {
                ||| #[trigger] a[i] == b[i]
                ||| 'A' <= a[i] <= 'Z' && b[i] as int == a[i] as int + 32
                ||| 'A' <= b[i] <= 'Z' && a[i] as int == b[i] as int + 32
            },
{
    assert forall|i: int| 0 <= i < a.len() implies (lower_char(#[trigger] a[i]) == lower_char(b[i]))
        == (a[i] == b[i] || ('A' <= a[i] <= 'Z' && b[i] as int == a[i] as int + 32) || ('A' <= b[i]
        <= 'Z' && a[i] as int == b[i] as int + 32)) by {}
}

}
