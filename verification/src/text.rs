//! Small operations on strings, seen as sequences of characters.

use vstd::prelude::*;
use vstd::string::*;

verus! {

/// Whether `v` is a Unicode scalar value.
pub open spec fn is_scalar(v: u32) -> bool {
    v <= 0xD7FF || 0xE000 <= v <= 0x10FFFF
}

/// `char::from_u32` of std: the character whose code is `i` where `i` is a
/// Unicode scalar value, and nothing where it is not.
pub assume_specification[ char::from_u32 ](i: u32) -> (r: Option<char>)
    ensures
        r == (if is_scalar(i) {
            Some(i as char)
        } else {
            None::<char>
        }),
;

/// `String::push` of std: `ch` is appended to the string.
pub assume_specification[ std::string::String::push ](s: &mut std::string::String, ch: char)
    ensures
        final(s)@ == old(s)@.push(ch),
;

/// The decimal digit for `d`.
pub open spec fn digit_char(d: nat) -> char {
    (0x30 + d) as u32 as char
}

/// `n` written in decimal digits, without leading zeros.
pub open spec fn decimal(n: nat) -> Seq<char>
    decreases n,
{
    if n < 10 {
        seq![digit_char(n)]
    } else {
        decimal(n / 10).push(digit_char(n % 10))
    }
}

/// `n` written in decimal digits.
pub fn to_decimal(n: usize) -> (r: String)
    ensures
        r@ == decimal(n as nat),
    decreases n,
{
    let mut r = if n < 10 {
        String::new()
    } else {
        to_decimal(n / 10)
    };
    let d = (n % 10) as u32;
    match char::from_u32(0x30 + d) {
        Some(c) => {
            r.push(c);
        },
        None => {},
    }
    proof {
        if n < 10 {
            assert(r@ =~= seq![digit_char(n as nat)]);
        }
    }
    r
}

/// The concatenation of the strings of `parts`, in order.
pub open spec fn concat_all(parts: Seq<Seq<char>>) -> Seq<char>
    decreases parts.len(),
{
    if parts.len() == 0 {
        Seq::empty()
    } else {
        concat_all(parts.drop_last()) + parts.last()
    }
}

/// The strings of `parts` joined into one.
pub fn concat(parts: &Vec<String>) -> (r: String)
    ensures
        r@ == concat_all(Seq::new(parts@.len(), |i: int| parts@[i]@)),
{
    let ghost all = Seq::new(parts@.len(), |i: int| parts@[i]@);
    let mut r = String::new();
    let mut i: usize = 0;
    while i < parts.len()
        invariant
            i <= parts.len(),
            all == Seq::new(parts@.len(), |i: int| parts@[i]@),
            r@ == concat_all(all.subrange(0, i as int)),
        decreases parts.len() - i,
    {
        proof {
            let next = all.subrange(0, i + 1);
            assert(next.drop_last() =~= all.subrange(0, i as int));
            assert(next.last() == parts@[i as int]@);
        }
        r.append(parts[i].as_str());
        i = i + 1;
    }
    proof {
        assert(all.subrange(0, parts.len() as int) =~= all);
    }
    r
}

/// The characters of `s` from `from` up to, not including, `to`, as a new string.
pub(crate) fn slice(s: &String, from: usize, to: usize) -> (r: String)
    requires
        from <= to <= s@.len(),
    ensures
        r@ == s@.subrange(from as int, to as int),
{
    s.as_str().substring_char(from, to).to_owned()
}

/// Whether `pat` stands in `text` at position `at`.
pub open spec fn matches_at(text: Seq<char>, at: int, pat: Seq<char>) -> bool {
    0 <= at && at + pat.len() <= text.len() && text.subrange(at, at + pat.len()) == pat
}

/// The first position at or after `from` at which `pat` stands in `text`.
pub open spec fn first_match(text: Seq<char>, from: int, pat: Seq<char>) -> Option<int>
    decreases text.len() - from + 1,
{
    if from < 0 || from + pat.len() > text.len() {
        None
    } else if matches_at(text, from, pat) {
        Some(from)
    } else {
        first_match(text, from + 1, pat)
    }
}

/// The first place at which `pat` stands lies at or behind the start, and
/// `pat` stands there.
pub proof fn lemma_first_match(text: Seq<char>, from: int, pat: Seq<char>)
    requires
        first_match(text, from, pat) is Some,
    ensures
        0 <= from <= first_match(text, from, pat)->0,
        matches_at(text, first_match(text, from, pat)->0, pat),
    decreases text.len() - from + 1,
{
    if from < 0 || from + pat.len() > text.len() {
    } else if matches_at(text, from, pat) {
    } else {
        lemma_first_match(text, from + 1, pat);
    }
}

/// A place at which `pat` stands, and before which it stands nowhere from
/// the start on, is the first place at which it stands.
pub proof fn lemma_first_match_at(text: Seq<char>, from: int, at: int, pat: Seq<char>)
    requires
        0 <= from <= at,
        matches_at(text, at, pat),
        forall|j: int| from <= j < at ==> !matches_at(text, j, pat),
    ensures
        first_match(text, from, pat) == Some(at),
    decreases at - from,
{
    if from < at {
        lemma_first_match_at(text, from + 1, at, pat);
    }
}

/// Before the first place at which `pat` stands, it stands nowhere.
pub proof fn lemma_first_match_is_first(text: Seq<char>, from: int, pat: Seq<char>, j: int)
    requires
        first_match(text, from, pat) is Some,
        from <= j < first_match(text, from, pat)->0,
    ensures
        !matches_at(text, j, pat),
    decreases text.len() - from + 1,
{
    if from < 0 || from + pat.len() > text.len() {
    } else if matches_at(text, from, pat) {
    } else if j > from {
        lemma_first_match_is_first(text, from + 1, pat, j);
    }
}

/// Whether `pat` stands in `text` at position `at`.
pub fn starts_at(text: &str, at: usize, pat: &str) -> (b: bool)
    ensures
        b == matches_at(text@, at as int, pat@),
        b ==> at + pat@.len() <= text@.len() <= usize::MAX,
{
    let n = pat.unicode_len();
    let len = text.unicode_len();
    if at > len || n > len - at {
        return false;
    }
    let mut k: usize = 0;
    while k < n
        invariant
            k <= n,
            n == pat@.len(),
            at + n <= len,
            len == text@.len(),
            text@.subrange(at as int, at + k) == pat@.subrange(0, k as int),
        decreases n - k,
    {
        if text.get_char(at + k) != pat.get_char(k) {
            proof {
                assert(text@.subrange(at as int, at + n)[k as int] != pat@[k as int]);
            }
            return false;
        }
        proof {
            assert(text@.subrange(at as int, at + k + 1) =~= text@.subrange(
                at as int,
                at + k,
            ).push(text@[at + k]));
            assert(pat@.subrange(0, k + 1) =~= pat@.subrange(0, k as int).push(pat@[k as int]));
        }
        k = k + 1;
    }
    proof {
        assert(pat@.subrange(0, n as int) =~= pat@);
    }
    true
}

/// The first position at or after `from` at which `pat` stands in `text`.
pub fn find_from(text: &str, from: usize, pat: &str) -> (r: Option<usize>)
    ensures
        match r {
            Some(at) => first_match(text@, from as int, pat@) == Some(at as int) && from <= at
                <= text@.len(),
            None => first_match(text@, from as int, pat@) is None,
        },
{
    let n = pat.unicode_len();
    let len = text.unicode_len();
    if from > len {
        return None;
    }
    let mut at: usize = from;
    loop
        invariant
            from <= at <= len,
            n == pat@.len(),
            len == text@.len(),
            first_match(text@, from as int, pat@) == first_match(text@, at as int, pat@),
        decreases len - at,
    {
        if n > len - at {
            return None;
        }
        if starts_at(text, at, pat) {
            return Some(at);
        }
        if at == len {
            proof {
                assert(text@.subrange(at as int, at as int) =~= pat@);
            }
            return None;
        }
        at = at + 1;
    }
}

/// Whether `c` occurs in `set`.
pub fn contains_char(set: &str, c: char) -> (b: bool)
    ensures
        b == set@.contains(c),
{
    let n = set.unicode_len();
    let mut i: usize = 0;
    while i < n
        invariant
            i <= n,
            n == set@.len(),
            forall|j: int| 0 <= j < i ==> set@[j] != c,
        decreases n - i,
    {
        if set.get_char(i) == c {
            return true;
        }
        i = i + 1;
    }
    false
}

/// Whether `a` and `b` are both absent, or both there with the same characters.
pub fn same_optional_text(a: &Option<String>, b: &Option<String>) -> (r: bool)
    ensures
        r == (match (a, b) {
            (Some(x), Some(y)) => x@ == y@,
            (None, None) => true,
            _ => false,
        }),
{
    match (a, b) {
        (Some(x), Some(y)) => same_text(x, y),
        (None, None) => true,
        _ => false,
    }
}

/// Whether `a` and `b` hold the same characters.
pub fn same_text(a: &String, b: &String) -> (r: bool)
    ensures
        r == (a@ == b@),
{
    *a == *b
}

} // verus!
