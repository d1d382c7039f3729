use vstd::prelude::*;

verus! {

/// An ASCII decimal digit.
pub open spec fn is_digit(c: char) -> bool {
    '0' <= c && c <= '9'
}

pub open spec fn all_digits(s: Seq<char>) -> bool {
    forall|i: int| 0 <= i < s.len() ==> is_digit(#[trigger] s[i])
}

pub open spec fn digit_value(c: char) -> nat {
    (c as int - '0' as int) as nat
}

/// The number that a string of decimal digits denotes.
pub open spec fn digits_value(s: Seq<char>) -> nat
    decreases s.len(),
{
    if s.len() == 0 {
        0
    } else {
        digits_value(s.drop_last()) * 10 + digit_value(s.last())
    }
}

/// The text with one leading `+` removed, if it has one.
pub open spec fn unsigned_part(s: Seq<char>) -> Seq<char> {
    if s.len() > 0 && s[0] == '+' {
        s.skip(1)
    } else {
        s
    }
}

/// An identifier as text: an optional `+` and one or more decimal digits
/// whose value is a non-zero 64-bit unsigned integer.
pub open spec fn id_of(s: Seq<char>) -> Option<u64> {
    let d = unsigned_part(s);
    if d.len() > 0 && all_digits(d) && 0 < digits_value(d) <= u64::MAX {
        Some(digits_value(d) as u64)
    } else {
        None
    }
}

/// `s` is the canonical decimal text of `v`: digits only, no leading zero.
pub open spec fn is_decimal_of(s: Seq<char>, v: nat) -> bool {
    &&& s.len() > 0
    &&& all_digits(s)
    &&& digits_value(s) == v
    &&& (s[0] == '0' ==> s.len() == 1)
}

/// Parses a guild, channel or user identifier.
pub fn parse_id(s: &str) -> (r: Option<u64>)
    ensures
        r == id_of(s@),
{
    let n = s.unicode_len();
    let start: usize = if n > 0 && s.get_char(0) == '+' { 1 } else { 0 };
    if start >= n {
        return None;
    }
    let ghost d = unsigned_part(s@);
    assert(d =~= s@.subrange(start as int, n as int));
    let mut acc: u64 = 0;
    let mut overflow = false;
    let mut i: usize = start;
    while i < n
        invariant
            start <= i <= n,
            n == s@.len(),
            d == unsigned_part(s@),
            d =~= s@.subrange(start as int, n as int),
            all_digits(s@.subrange(start as int, i as int)),
            !overflow ==> acc as nat == digits_value(s@.subrange(start as int, i as int)),
            overflow ==> digits_value(s@.subrange(start as int, i as int)) > u64::MAX,
        decreases n - i,
    {
        let c = s.get_char(i);
        let ghost prev = s@.subrange(start as int, i as int);
        let ghost next = s@.subrange(start as int, i + 1);
        assert(next.drop_last() =~= prev);
        assert(next.last() == c);
        if !('0' <= c && c <= '9') {
            assert(d[i - start] == c);
            assert(!is_digit(d[i - start]));
            assert(!all_digits(d));
            return None;
        }
        let dv: u64 = (c as u32 - '0' as u32) as u64;
        assert(dv as nat == digit_value(c));
        if !overflow {
            if acc > (u64::MAX - dv) / 10 {
                assert(acc * 10 + dv > u64::MAX) by (nonlinear_arith)
                    requires
                        acc > (u64::MAX - dv) / 10,
                        dv <= 9,
                ;
                overflow = true;
            } else {
                assert(acc * 10 + dv <= u64::MAX) by (nonlinear_arith)
                    requires
                        acc <= (u64::MAX - dv) / 10,
                        dv <= 9,
                ;
                acc = acc * 10 + dv;
            }
        }
        assert(all_digits(next)) by {
            assert forall|j: int| 0 <= j < next.len() implies is_digit(#[trigger] next[j]) by {
                if j < prev.len() {
                    assert(next[j] == prev[j]);
                }
            }
        }
        i = i + 1;
    }
    assert(s@.subrange(start as int, n as int) =~= d);
    if overflow || acc == 0 {
        None
    } else {
        Some(acc)
    }
}

/// Relies on `ToString` for `u64` (through its `Display`): the value written
/// in decimal digits, without sign or leading zeros.
#[verifier::external_body]
pub(crate) fn decimal_string(v: u64) -> (r: String)
    ensures
        is_decimal_of(r@, v as nat),
{
    v.to_string()
}

/// Writes an identifier as decimal text.
pub fn id_to_string(v: u64) -> (r: String)
    ensures
        is_decimal_of(r@, v as nat),
        v > 0 ==> id_of(r@) == Some(v),
{
    let r = decimal_string(v);
    proof {
        lemma_decimal_parses(r@, v);
    }
    r
}

/// Writing a non-zero identifier in decimal and parsing it back gives the
/// identifier again.
pub proof fn lemma_decimal_parses(s: Seq<char>, v: u64)
    requires
        is_decimal_of(s, v as nat),
    ensures
        v > 0 ==> id_of(s) == Some(v),
{
    assert(is_digit(s[0]));
    assert(unsigned_part(s) == s);
}

} // verus!
