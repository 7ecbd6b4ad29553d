//! Reading the user's answers: numeric choices, and what each one selects.
use vstd::prelude::*;

verus! {

/// The numeric choice that means "yes" (and "Wii U" at the first prompt).
pub const YES_CHOICE: u32 = 1;

pub open spec fn is_digit(c: char) -> bool {
    '0' <= c && c <= '9'
}

pub open spec fn all_digits(s: Seq<char>) -> bool {
    forall|i: int| 0 <= i < s.len() ==> is_digit(#[trigger] s[i])
}

/// The number that a string of decimal digits writes.
pub open spec fn digits_value(s: Seq<char>) -> int
    decreases s.len(),
{
    if s.len() == 0 {
        0
    } else {
        digits_value(s.drop_last()) * 10 + (s.last() as int - '0' as int)
    }
}

/// The digits of an answer, after an optional leading `+`.
pub open spec fn unsigned_part(s: Seq<char>) -> Seq<char> {
    if s.len() > 0 && s[0] == '+' {
        s.drop_first()
    } else {
        s
    }
}

/// The value of an answer read as a decimal `u32`: an optional `+` and at
/// least one digit, with a value that fits.
pub open spec fn choice_spec(s: Seq<char>) -> Option<u32> {
    let d = unsigned_part(s);
    if d.len() > 0 && all_digits(d) && digits_value(d) <= u32::MAX {
        Some(digits_value(d) as u32)
    } else {
        None
    }
}

proof fn lemma_digits_value_grows(s: Seq<char>, k: int)
    requires
        all_digits(s),
        0 <= k <= s.len(),
    ensures
        0 <= digits_value(s.take(k)) <= digits_value(s),
    decreases s.len(),
{
    if s.len() > 0 {
        if k < s.len() {
            let p = s.drop_last();
            assert(all_digits(p));
            lemma_digits_value_grows(p, k);
            assert(p.take(k) =~= s.take(k));
            lemma_digits_value_grows(p, p.len() as int);
            assert(p.take(p.len() as int) =~= p);
        } else {
            assert(s.take(k) =~= s);
            let p = s.drop_last();
            assert(all_digits(p));
            lemma_digits_value_grows(p, p.len() as int);
            assert(p.take(p.len() as int) =~= p);
        }
    }
}

/// An answer read as a decimal `u32`, or `None` when it is not one.
pub fn get_choice(text: &str) -> (r: Option<u32>)
    ensures
        r == choice_spec(text@),
{
    let len = text.unicode_len();
    let mut start: usize = 0;
    if len > 0 && text.get_char(0) == '+' {
        start = 1;
    }
    let ghost d = unsigned_part(text@);
    assert(d =~= text@.subrange(start as int, len as int));
    if start == len {
        return None;
    }
    let mut i: usize = start;
    while i < len
        invariant
            len == text@.len(),
            start <= i <= len,
            d == text@.subrange(start as int, len as int),
            d == unsigned_part(text@),
            forall|j: int| start <= j < i ==> is_digit(#[trigger] text@[j]),
        decreases len - i,
    {
        let c = text.get_char(i);
        if !('0' <= c && c <= '9') {
            assert(!is_digit(d[i - start]));
            assert(!all_digits(d));
            return None;
        }
        i = i + 1;
    }
    assert(all_digits(d));
    let mut value: u64 = 0;
    let mut i: usize = start;
    while i < len
        invariant
            len == text@.len(),
            start <= i <= len,
            d == text@.subrange(start as int, len as int),
            d == unsigned_part(text@),
            all_digits(d),
            value == digits_value(d.take(i - start)),
            value <= u32::MAX,
        decreases len - i,
    {
        let c = text.get_char(i);
        let ghost k = i - start;
        assert(d.take(k + 1).drop_last() =~= d.take(k));
        assert(d.take(k + 1).last() == c);
        assert(is_digit(d[k]));
        value = value * 10 + (c as u64 - '0' as u64);
        assert(value == digits_value(d.take(k + 1)));
        if value > u32::MAX as u64 {
            proof {
                lemma_digits_value_grows(d, k + 1);
            }
            return None;
        }
        i = i + 1;
    }
    assert(d.take(len - start) =~= d);
    Some(value as u32)
}

/// The socket address text of the console's file-transfer service at the
/// address the user entered (port 21).
pub fn device_address(ip: &str) -> (r: String)
    ensures
        r@ == ip@ + ":21"@,
{
    let mut r = String::from_str(ip);
    r.append(":21");
    r
}

} // verus!
