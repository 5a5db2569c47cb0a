//! Numbers as decimal text, the form in which a format version is stored.

use vstd::prelude::*;

verus! {

/// The decimal digits of `n` as ASCII, without leading zeros.
pub open spec fn decimal(n: nat) -> Seq<u8>
    decreases n,
{
    if n < 10 {
        seq![(48 + n) as u8]
    } else {
        decimal(n / 10).push((48 + n % 10) as u8)
    }
}

/// Whether every byte is an ASCII digit.
pub open spec fn all_digits(text: Seq<u8>) -> bool {
    forall|i: int| 0 <= i < text.len() ==> 48 <= #[trigger] text[i] <= 57
}

/// The number that a run of digits stands for; leading zeros count for
/// nothing.
pub open spec fn digits_value(text: Seq<u8>) -> nat
    decreases text.len(),
{
    if text.len() == 0 {
        0
    } else {
        digits_value(text.drop_last()) * 10 + (text.last() - 48) as nat
    }
}

/// The number that a text stands for: it has to be one digit or more, nothing
/// but digits, and at most the largest 32-bit number.
pub open spec fn decimal_value(text: Seq<u8>) -> Option<u32> {
    if text.len() > 0 && all_digits(text) && digits_value(text) <= u32::MAX {
        Some(digits_value(text) as u32)
    } else {
        None
    }
}

/// The digits of a number stand for that number.
pub proof fn lemma_decimal_read_back(n: nat)
    ensures
        decimal(n).len() > 0,
        all_digits(decimal(n)),
        digits_value(decimal(n)) == n,
    decreases n,
{
    if n < 10 {
        let text = decimal(n);
        assert(text.drop_last() =~= Seq::<u8>::empty());
        assert(digits_value(text.drop_last()) == 0);
    } else {
        lemma_decimal_read_back(n / 10);
        let text = decimal(n);
        assert(text.drop_last() =~= decimal(n / 10));
    }
}

/// A version is read back from its own digits.
pub proof fn lemma_version_read_back(version: u32)
    ensures
        decimal_value(decimal(version as nat)) == Some(version),
{
    lemma_decimal_read_back(version as nat);
}

/// A run of digits stands for at least as much as any run that it starts
/// with.
proof fn lemma_prefix_value(text: Seq<u8>, len: int)
    requires
        0 <= len <= text.len(),
        all_digits(text),
    ensures
        digits_value(text.take(len)) <= digits_value(text),
    decreases text.len() - len,
{
    if len == text.len() {
        assert(text.take(len) =~= text);
    } else {
        lemma_prefix_value(text, len + 1);
        let longer = text.take(len + 1);
        assert(longer.drop_last() =~= text.take(len));
        assert(longer.last() == text[len]);
    }
}

/// Appends the decimal digits of `n` to `out`.
fn push_decimal(n: u32, out: &mut Vec<u8>)
    ensures
        final(out)@ == old(out)@ + decimal(n as nat),
    decreases n,
{
    if n >= 10 {
        push_decimal(n / 10, out);
    }
    let digit: u8 = (n % 10) as u8;
    out.push(48 + digit);
    proof {
        assert(final(out)@ =~= old(out)@ + decimal(n as nat));
    }
}

/// The decimal digits of `n`.
pub fn to_decimal(n: u32) -> (text: Vec<u8>)
    ensures
        text@ == decimal(n as nat),
{
    let mut text: Vec<u8> = Vec::new();
    push_decimal(n, &mut text);
    proof {
        assert(text@ =~= decimal(n as nat));
    }
    text
}

/// The number that `text` stands for, if it stands for one.
pub fn from_decimal(text: &[u8]) -> (value: Option<u32>)
    ensures
        value == decimal_value(text@),
{
    if text.len() == 0 {
        return None;
    }
    let mut acc: u64 = 0;
    let mut i: usize = 0;
    while i < text.len()
        invariant
            i <= text.len(),
            acc <= u32::MAX,
            acc == digits_value(text@.take(i as int)),
            all_digits(text@.take(i as int)),
        decreases text.len() - i,
    {
        let byte: u8 = text[i];
        if byte < 48 || byte > 57 {
            return None;
        }
        let next: u64 = acc * 10 + (byte - 48) as u64;
        proof {
            let longer = text@.take(i + 1);
            assert(longer.drop_last() =~= text@.take(i as int));
            assert(longer.last() == byte);
            assert(next == digits_value(longer));
            assert forall|j: int| 0 <= j < longer.len() implies 48 <= #[trigger] longer[j]
                <= 57 by {
                if j < i {
                    assert(longer[j] == text@.take(i as int)[j]);
                }
            }
        }
        if next > u32::MAX as u64 {
            proof {
                if all_digits(text@) {
                    lemma_prefix_value(text@, i + 1);
                }
            }
            return None;
        }
        acc = next;
        i = i + 1;
    }
    proof {
        assert(text@.take(i as int) =~= text@);
    }
    Some(acc as u32)
}

} // verus!
