use vstd::prelude::*;
use vstd::string::StrSliceExecFns;

verus! {

/// Whether a character is a decimal digit.
pub open spec fn is_decimal_digit(c: char) -> bool {
    48 <= c as u32 <= 57
}

/// The number that a sequence of decimal digits denotes, most significant
/// digit first.
pub open spec fn decimal_value(s: Seq<char>) -> int
    decreases s.len(),
{
    if s.len() == 0 {
        0
    } else {
        decimal_value(s.drop_last()) * 10 + (s.last() as u32 - 48)
    }
}

/// The digit part of a numeric id text: everything after one optional
/// leading plus sign.
pub open spec fn digits_of(s: Seq<char>) -> Seq<char> {
    if s.len() >= 1 && s[0] == '+' {
        s.drop_first()
    } else {
        s
    }
}

/// The unsigned 64-bit number that a decimal text denotes, or `None` when
/// the digit part is empty, holds a character that is no decimal digit, or
/// denotes a number above the 64-bit range. One leading plus sign is
/// accepted, as the standard unsigned parse accepts it.
pub open spec fn spec_parse_u64(s: Seq<char>) -> Option<u64> {
    let ds = digits_of(s);
    if ds.len() == 0 || !(forall|i: int| 0 <= i < ds.len() ==> is_decimal_digit(ds[i]))
        || decimal_value(ds) > u64::MAX {
        None
    } else {
        Some(decimal_value(ds) as u64)
    }
}

proof fn lemma_decimal_value_nonneg(s: Seq<char>)
    requires
        forall|i: int| 0 <= i < s.len() ==> is_decimal_digit(s[i]),
    ensures
        decimal_value(s) >= 0,
    decreases s.len(),
{
    if s.len() > 0 {
        lemma_decimal_value_nonneg(s.drop_last());
    }
}

/// A prefix of a digit string never denotes more than the whole string.
proof fn lemma_decimal_value_prefix_le(s: Seq<char>, i: int)
    requires
        forall|j: int| 0 <= j < s.len() ==> is_decimal_digit(s[j]),
        0 <= i <= s.len(),
    ensures
        decimal_value(s.subrange(0, i)) <= decimal_value(s),
    decreases s.len() - i,
{
    if i < s.len() {
        let t = s.subrange(0, i + 1);
        assert(t.drop_last() =~= s.subrange(0, i));
        lemma_decimal_value_nonneg(s.subrange(0, i));
        lemma_decimal_value_prefix_le(s, i + 1);
    } else {
        assert(s.subrange(0, i) =~= s);
    }
}

/// Parses a decimal numeric id exactly as the standard unsigned 64-bit
/// parse does: an optional leading plus sign, then at least one decimal
/// digit, rejecting any other character and any value above the range.
pub fn parse_norad_id(s: &str) -> (r: Option<u64>)
    ensures
        r == spec_parse_u64(s@),
{
    let n = s.unicode_len();
    let mut i: usize = 0;
    if n >= 1 && s.get_char(0) == '+' {
        i = 1;
    }
    let ghost start = i as int;
    let ghost ds = digits_of(s@);
    proof {
        assert(ds =~= s@.subrange(start, n as int));
    }
    if i == n {
        return None;
    }
    let mut value: u64 = 0;
    while i < n
        invariant
            start <= i <= n,
            n == s@.len(),
            start == if s@.len() >= 1 && s@[0] == '+' { 1int } else { 0int },
            ds == digits_of(s@),
            ds =~= s@.subrange(start, n as int),
            forall|j: int| start <= j < i ==> is_decimal_digit(s@[j]),
            value == decimal_value(s@.subrange(start, i as int)),
        decreases n - i,
    {
        let c = s.get_char(i);
        let d = c as u32;
        if d < 48 || d > 57 {
            proof {
                assert(ds[i as int - start] == s@[i as int]);
                assert(!is_decimal_digit(ds[i as int - start]));
            }
            return None;
        }
        let digit = (d - 48) as u64;
        proof {
            let prefix = s@.subrange(start, i as int);
            let next = s@.subrange(start, i as int + 1);
            assert(next.drop_last() =~= prefix);
            assert(next.last() == s@[i as int]);
        }
        let grown = match value.checked_mul(10) {
            Some(v) => v.checked_add(digit),
            None => None,
        };
        match grown {
            Some(v) => {
                value = v;
            },
            None => {
                proof {
                    let k = i as int + 1 - start;
                    if forall|j: int| 0 <= j < ds.len() ==> is_decimal_digit(ds[j]) {
                        assert(ds.subrange(0, k) =~= s@.subrange(start, i as int + 1));
                        lemma_decimal_value_prefix_le(ds, k);
                    }
                }
                return None;
            },
        }
        i = i + 1;
    }
    proof {
        assert(s@.subrange(start, n as int) =~= ds);
    }
    Some(value)
}

} // verus!
