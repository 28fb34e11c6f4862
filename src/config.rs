use vstd::prelude::*;

use crate::error::VdevError;

verus! {

/// The number of devices when the configuration names none.
pub const DEFAULT_DEVICES: usize = 1;

/// Whether `b` is an ASCII decimal digit.
pub open spec fn is_digit(b: u8) -> bool {
    48 <= b <= 57
}

/// Whether `s` is a non-empty run of decimal digits.
pub open spec fn is_numeral(s: Seq<u8>) -> bool {
    s.len() > 0 && forall|i: int| 0 <= i < s.len() ==> is_digit(s[i])
}

/// The number that the digits `s` spell in decimal.
pub open spec fn numeral_value(s: Seq<u8>) -> nat
    decreases s.len(),
{
    if s.len() == 0 {
        0
    } else {
        numeral_value(s.drop_last()) * 10 + (s.last() - 48) as nat
    }
}

proof fn lemma_prefix_value_le(s: Seq<u8>, i: int)
    requires
        0 <= i <= s.len(),
        forall|k: int| 0 <= k < s.len() ==> is_digit(s[k]),
    ensures
        numeral_value(s.take(i)) <= numeral_value(s),
    decreases s.len() - i,
{
    if i < s.len() {
        let t = s.take(i + 1);
        assert(t.drop_last() =~= s.take(i));
        lemma_prefix_value_le(s, i + 1);
    } else {
        assert(s.take(i) =~= s);
    }
}

/// Reads a device count written as decimal digits. Text that is empty,
/// holds anything but digits, or spells a number with no in-memory size is
/// `InvalidConfig`.
pub fn parse_device_count(text: &[u8]) -> (r: Result<usize, VdevError>)
    ensures
        is_numeral(text@) && numeral_value(text@) <= usize::MAX ==> r == Ok::<usize, VdevError>(
            numeral_value(text@) as usize,
        ),
        !(is_numeral(text@) && numeral_value(text@) <= usize::MAX) ==> r == Err::<usize, VdevError>(
            VdevError::InvalidConfig,
        ),
{
    if text.len() == 0 {
        return Err(VdevError::InvalidConfig);
    }
    let mut value: usize = 0;
    let mut i: usize = 0;
    while i < text.len()
        invariant
            i <= text@.len(),
            forall|k: int| 0 <= k < i ==> is_digit(text@[k]),
            value == numeral_value(text@.take(i as int)),
        decreases text@.len() - i,
    {
        let b = text[i];
        if b < 48 || b > 57 {
            return Err(VdevError::InvalidConfig);
        }
        let d = (b - 48) as usize;
        assert(text@.take(i + 1).drop_last() =~= text@.take(i as int));
        if value > (usize::MAX - d) / 10 {
            proof {
                assert(value * 10 + d > usize::MAX) by (nonlinear_arith)
                    requires
                        value > (usize::MAX - d) / 10,
                        d <= 9,
                ;
                if is_numeral(text@) {
                    lemma_prefix_value_le(text@, i + 1);
                }
            }
            return Err(VdevError::InvalidConfig);
        }
        value = value * 10 + d;
        i = i + 1;
    }
    assert(text@.take(i as int) =~= text@);
    Ok(value)
}

} // verus!
