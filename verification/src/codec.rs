//! The node's binary encoding, read field by field from the front of a byte
//! slice: compact length prefixes, byte strings, and fixed-width fields.

use parity_scale_codec::{Compact, Decode};
use vstd::prelude::*;
use vstd::slice::{slice_subrange, slice_to_vec};

verus! {

/// Why a record could not be decoded.
#[derive(Clone, Copy, Debug, PartialEq, Eq, Structural)]
pub enum DecodeError {
    /// A length prefix is missing, cut short, or not in its shortest form.
    MalformedLength,
    /// The input ends before the field does.
    Truncated,
    /// A tag byte names no variant.
    InvalidTag,
    /// A text field is not UTF-8.
    InvalidUtf8,
}

/// The number that a byte sequence spells, least significant byte first.
pub open spec fn le_value(bytes: Seq<u8>) -> nat
    decreases bytes.len(),
{
    if bytes.len() == 0 {
        0
    } else {
        bytes[0] as nat + 256 * le_value(bytes.drop_first())
    }
}

/// 256 to the power `n`.
pub open spec fn pow256(n: nat) -> nat
    decreases n,
{
    if n == 0 {
        1
    } else {
        256 * pow256((n - 1) as nat)
    }
}

/// A compact length prefix at the front of `input`: its value and the number
/// of bytes it takes, or `None` where the input holds no well-formed prefix.
///
/// The two low bits of the first byte pick the form. Form 0 holds the value
/// in the six high bits of that byte. Forms 1 and 2 hold it in the high bits
/// of two and of four bytes, least significant byte first. Form 3 is
/// followed by four bytes that hold the value. Every value has one form
/// only, the shortest that can hold it; any other is refused.
pub open spec fn compact_u32(input: Seq<u8>) -> Option<(u32, nat)> {
    if input.len() == 0 {
        None
    } else if input[0] % 4 == 0 {
        Some(((input[0] / 4) as u32, 1))
    } else if input[0] % 4 == 1 {
        if input.len() < 2 {
            None
        } else {
            let x = le_value(input.subrange(0, 2)) / 4;
            if x > 0x3f {
                Some((x as u32, 2))
            } else {
                None
            }
        }
    } else if input[0] % 4 == 2 {
        if input.len() < 4 {
            None
        } else {
            let x = le_value(input.subrange(0, 4)) / 4;
            if x > 0x3fff {
                Some((x as u32, 4))
            } else {
                None
            }
        }
    } else {
        if input[0] / 4 != 0 || input.len() < 5 {
            None
        } else {
            let x = le_value(input.subrange(1, 5));
            if x > 0x3fff_ffff {
                Some((x as u32, 5))
            } else {
                None
            }
        }
    }
}

/// The first `n` bytes of `input` and what follows them.
pub open spec fn spec_take(input: Seq<u8>, n: nat) -> Result<(Seq<u8>, Seq<u8>), DecodeError> {
    if input.len() < n {
        Err(DecodeError::Truncated)
    } else {
        Ok((input.subrange(0, n as int), input.subrange(n as int, input.len() as int)))
    }
}

/// A byte string: a compact length, then that many bytes.
pub open spec fn spec_byte_string(input: Seq<u8>) -> Result<(Seq<u8>, Seq<u8>), DecodeError> {
    match compact_u32(input) {
        None => Err(DecodeError::MalformedLength),
        Some((len, width)) => spec_take(input.subrange(width as int, input.len() as int), len as nat),
    }
}

/// A 128-bit number: sixteen bytes, least significant first.
pub open spec fn spec_u128(input: Seq<u8>) -> Result<(u128, Seq<u8>), DecodeError> {
    match spec_take(input, 16) {
        Err(e) => Err(e),
        Ok((head, rest)) => Ok((le_value(head) as u128, rest)),
    }
}

/// One byte.
pub open spec fn spec_u8(input: Seq<u8>) -> Result<(u8, Seq<u8>), DecodeError> {
    match spec_take(input, 1) {
        Err(e) => Err(e),
        Ok((head, rest)) => Ok((head[0], rest)),
    }
}

/// A number spelled by `n` bytes is below 256 to the power `n`.
pub proof fn lemma_le_value_bound(bytes: Seq<u8>)
    ensures
        le_value(bytes) < pow256(bytes.len()),
    decreases bytes.len(),
{
    if bytes.len() > 0 {
        lemma_le_value_bound(bytes.drop_first());
    }
}

/// `Compact::<u32>::decode` of `parity_scale_codec` on a byte slice, with
/// the bytes that it left unread. The contract restates the crate's decoder:
/// the form is read from the low two bits of the first byte, the value from
/// the bytes of that form, and a value that a shorter form could hold, or a
/// form 3 prefix that announces more than four bytes, is an error.
#[verifier::external_body]
pub(crate) fn read_compact_u32<'a>(input: &'a [u8]) -> (r: Option<(u32, &'a [u8])>)
    ensures
        match r {
            Some((value, rest)) => compact_u32(input@) matches Some((v, width)) && v == value
                && width <= input@.len() && rest@ == input@.subrange(
                width as int,
                input@.len() as int,
            ),
            None => compact_u32(input@) is None,
        },
{
    let mut rest: &[u8] = input;
    match Compact::<u32>::decode(&mut rest) {
        Ok(Compact(value)) => Some((value, rest)),
        Err(_) => None,
    }
}

/// Splits off the first `n` bytes.
pub fn take<'a>(input: &'a [u8], n: usize) -> (r: Result<(&'a [u8], &'a [u8]), DecodeError>)
    ensures
        match r {
            Ok((head, rest)) => spec_take(input@, n as nat) == Ok::<_, DecodeError>(
                (head@, rest@),
            ),
            Err(e) => spec_take(input@, n as nat) == Err::<(Seq<u8>, Seq<u8>), _>(e),
        },
{
    if input.len() < n {
        Err(DecodeError::Truncated)
    } else {
        Ok((slice_subrange(input, 0, n), slice_subrange(input, n, input.len())))
    }
}

/// Reads a length-prefixed byte string.
pub fn read_byte_string<'a>(input: &'a [u8]) -> (r: Result<(Vec<u8>, &'a [u8]), DecodeError>)
    ensures
        match r {
            Ok((bytes, rest)) => spec_byte_string(input@) == Ok::<_, DecodeError>(
                (bytes@, rest@),
            ),
            Err(e) => spec_byte_string(input@) == Err::<(Seq<u8>, Seq<u8>), _>(e),
        },
{
    match read_compact_u32(input) {
        None => Err(DecodeError::MalformedLength),
        Some((len, after)) => match take(after, len as usize) {
            Err(e) => Err(e),
            Ok((head, rest)) => Ok((slice_to_vec(head), rest)),
        },
    }
}

/// Reads thirty-two bytes.
pub fn read_array32<'a>(input: &'a [u8]) -> (r: Result<([u8; 32], &'a [u8]), DecodeError>)
    ensures
        match r {
            Ok((bytes, rest)) => spec_take(input@, 32) == Ok::<_, DecodeError>((bytes@, rest@)),
            Err(e) => spec_take(input@, 32) == Err::<(Seq<u8>, Seq<u8>), _>(e),
        },
{
    match take(input, 32) {
        Err(e) => Err(e),
        Ok((head, rest)) => {
            let mut bytes: [u8; 32] = [0u8; 32];
            let mut i: usize = 0;
            while i < 32
                invariant
                    i <= 32,
                    head@.len() == 32,
                    forall|j: int| 0 <= j < i ==> bytes@[j] == head@[j],
                decreases 32 - i,
            {
                bytes[i] = head[i];
                i += 1;
            }
            assert(bytes@ =~= head@);
            Ok((bytes, rest))
        },
    }
}

/// The number that up to sixteen bytes spell, least significant first.
pub fn le_number(bytes: &[u8]) -> (value: u128)
    requires
        bytes@.len() <= 16,
    ensures
        value == le_value(bytes@),
{
    let n: usize = bytes.len();
    let mut value: u128 = 0;
    let mut i: usize = n;
    proof {
        assert(bytes@.subrange(n as int, n as int) =~= Seq::<u8>::empty());
    }
    while i > 0
        invariant
            i <= n,
            n == bytes@.len(),
            n <= 16,
            value == le_value(bytes@.subrange(i as int, n as int)),
        decreases i,
    {
        proof {
            let tail = bytes@.subrange(i as int, n as int);
            let grown = bytes@.subrange(i - 1, n as int);
            assert(grown.drop_first() =~= tail);
            lemma_le_value_bound(tail);
            lemma_le_value_bound(grown);
            lemma_pow256_grows(grown.len(), 16);
            reveal_with_fuel(pow256, 17);
            assert(pow256(16) == 0x1_0000_0000_0000_0000_0000_0000_0000_0000);
        }
        i -= 1;
        value = value * 256 + bytes[i] as u128;
    }
    proof {
        assert(bytes@.subrange(0, n as int) =~= bytes@);
    }
    value
}

/// 256 to a power grows with the power.
pub proof fn lemma_pow256_grows(a: nat, b: nat)
    requires
        a <= b,
    ensures
        pow256(a) <= pow256(b),
        pow256(a) > 0,
    decreases b,
{
    if a < b {
        lemma_pow256_grows(a, (b - 1) as nat);
    } else if a > 0 {
        lemma_pow256_grows((a - 1) as nat, (a - 1) as nat);
    }
}

/// Reads a 128-bit number.
pub fn read_u128<'a>(input: &'a [u8]) -> (r: Result<(u128, &'a [u8]), DecodeError>)
    ensures
        match r {
            Ok((value, rest)) => spec_u128(input@) == Ok::<_, DecodeError>((value, rest@)),
            Err(e) => spec_u128(input@) == Err::<(u128, Seq<u8>), _>(e),
        },
{
    match take(input, 16) {
        Err(e) => Err(e),
        Ok((head, rest)) => {
            proof {
                lemma_le_value_bound(head@);
                reveal_with_fuel(pow256, 17);
            }
            Ok((le_number(head), rest))
        },
    }
}

/// Reads one byte.
pub fn read_u8<'a>(input: &'a [u8]) -> (r: Result<(u8, &'a [u8]), DecodeError>)
    ensures
        match r {
            Ok((value, rest)) => spec_u8(input@) == Ok::<_, DecodeError>((value, rest@)),
            Err(e) => spec_u8(input@) == Err::<(u8, Seq<u8>), _>(e),
        },
{
    match take(input, 1) {
        Err(e) => Err(e),
        Ok((head, rest)) => Ok((head[0], rest)),
    }
}

} // verus!
