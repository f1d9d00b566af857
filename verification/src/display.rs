//! Display forms of binary values and byte counts.

use vstd::prelude::*;
use vstd::string::StringExecFns;

verus! {

/// The lowercase hexadecimal digit of a value below sixteen.
pub open spec fn hex_digit(nibble: int) -> char {
    seq!['0', '1', '2', '3', '4', '5', '6', '7', '8', '9', 'a', 'b', 'c', 'd', 'e', 'f'][nibble]
}

/// Lowercase hexadecimal text of a byte sequence: two digits per byte, the
/// high half first.
pub open spec fn hex_text(bytes: Seq<u8>) -> Seq<char> {
    Seq::new(
        2 * bytes.len(),
        |i: int|
            if i % 2 == 0 {
                hex_digit(bytes[i / 2] as int / 16)
            } else {
                hex_digit(bytes[i / 2] as int % 16)
            },
    )
}

/// The character that stands for the bytes left out of a shortened value.
pub open spec fn ellipsis() -> Seq<char> {
    seq!['…']
}

/// Shortened hexadecimal text: a value of up to three bytes in full (the
/// empty value as the empty text), a longer one as its first two and its
/// last two bytes around an ellipsis.
pub open spec fn short_hex_text(bytes: Seq<u8>) -> Seq<char> {
    if bytes.len() > 3 {
        hex_text(bytes.subrange(0, 2)) + ellipsis() + hex_text(
            bytes.subrange(bytes.len() - 2, bytes.len() as int),
        )
    } else {
        hex_text(bytes)
    }
}

/// `hex::encode` on a byte slice. The contract is the crate's documented
/// behaviour: every byte becomes two lowercase hexadecimal digits, in order.
#[verifier::external_body]
pub(crate) fn hex_encode(bytes: &[u8]) -> (text: String)
    ensures
        text@ == hex_text(bytes@),
{
    hex::encode(bytes)
}

/// A byte string that is shown in hexadecimal.
#[derive(Clone, Debug, PartialEq, Eq)]
pub struct HexVec(pub Vec<u8>);

impl View for HexVec {
    type V = Seq<u8>;

    open spec fn view(&self) -> Seq<u8> {
        self.0@
    }
}

impl HexVec {
    /// Wraps the bytes.
    pub fn new(bytes: Vec<u8>) -> (hex: HexVec)
        ensures
            hex@ == bytes@,
    {
        HexVec(bytes)
    }

    /// The shortened text for a table cell: nothing for no bytes, every
    /// byte of up to three, and of more the first two and the last two
    /// around an ellipsis.
    pub fn to_string(&self) -> (text: String)
        ensures
            text@ == short_hex_text(self@),
            self@.len() == 0 ==> text@ == Seq::<char>::empty(),
            0 < self@.len() <= 3 ==> text@ == hex_text(self@),
            self@.len() > 3 ==> text@ == hex_text(self@.subrange(0, 2)) + ellipsis() + hex_text(
                self@.subrange(self@.len() - 2, self@.len() as int),
            ),
    {
        short_hex(self.0.as_slice())
    }

    /// The whole value in hexadecimal.
    pub fn to_full_string(&self) -> (text: String)
        ensures
            text@ == hex_text(self@),
    {
        hex_encode(self.0.as_slice())
    }
}

/// Shortened hexadecimal text of a byte slice.
pub fn short_hex(bytes: &[u8]) -> (text: String)
    ensures
        text@ == short_hex_text(bytes@),
{
    let n: usize = bytes.len();
    if n > 3 {
        let head = vstd::slice::slice_subrange(bytes, 0, 2);
        let tail = vstd::slice::slice_subrange(bytes, n - 2, n);
        let mut text = hex_encode(head);
        text.append("…");
        proof {
            reveal_strlit("…");
            assert("…"@ =~= ellipsis());
        }
        let tail_text = hex_encode(tail);
        text.append(tail_text.as_str());
        text
    } else {
        hex_encode(bytes)
    }
}

/// The decimal digit of a value below ten.
pub open spec fn decimal_digit(value: nat) -> char {
    seq!['0', '1', '2', '3', '4', '5', '6', '7', '8', '9'][value as int]
}

/// Whether a character is a decimal digit.
pub open spec fn is_decimal_digit(c: char) -> bool {
    exists|value: nat| value < 10 && c == #[trigger] decimal_digit(value)
}

/// A number in decimal, without leading zeros.
pub open spec fn decimal_text(n: nat) -> Seq<char>
    decreases n,
{
    if n < 10 {
        seq![decimal_digit(n)]
    } else {
        decimal_text(n / 10).push(decimal_digit(n % 10))
    }
}

/// Whether a text is made of decimal digits only.
pub open spec fn all_digits(text: Seq<char>) -> bool {
    forall|i: int| 0 <= i < text.len() ==> is_decimal_digit(#[trigger] text[i])
}

/// How many numbers lie between one unit and the next.
pub open spec fn size_step(use_1024_instead_of_1000: bool) -> nat {
    if use_1024_instead_of_1000 {
        1024
    } else {
        1000
    }
}

/// The unit names that follow the number in a rendered size, smallest first.
pub open spec fn size_units(use_1024_instead_of_1000: bool) -> Seq<Seq<char>> {
    if use_1024_instead_of_1000 {
        seq![
            seq!['B'],
            seq!['k', 'b', 'i', 't'],
            seq!['M', 'b', 'i', 't'],
            seq!['G', 'b', 'i', 't'],
            seq!['T', 'b', 'i', 't'],
            seq!['P', 'b', 'i', 't'],
            seq!['E', 'b', 'i', 't'],
            seq!['Z', 'b', 'i', 't'],
            seq!['Y', 'b', 'i', 't'],
        ]
    } else {
        seq![
            seq!['B'],
            seq!['k', 'B'],
            seq!['M', 'B'],
            seq!['G', 'B'],
            seq!['T', 'B'],
            seq!['P', 'B'],
            seq!['E', 'B'],
            seq!['Z', 'B'],
            seq!['Y', 'B'],
        ]
    }
}

/// How many decimals a size is written with where none are asked for.
pub open spec fn size_decimals(number_of_decimal: Option<u8>) -> nat {
    match number_of_decimal {
        Some(decimals) => decimals as nat,
        None => 2,
    }
}

/// The decimals of a whole number: none where they are dropped or none are
/// written, otherwise a point and as many zeros as there are decimals.
pub open spec fn zero_decimals(decimals: nat, dropped: bool) -> Seq<char> {
    if dropped || decimals == 0 {
        Seq::empty()
    } else {
        seq!['.'] + Seq::new(decimals, |i: int| '0')
    }
}

/// How many bytes the unit at `unit` in the table of units holds: the step
/// to the power `unit`.
pub open spec fn unit_size(step: nat, unit: nat) -> nat
    decreases unit,
{
    if unit == 0 {
        1
    } else {
        step * unit_size(step, (unit - 1) as nat)
    }
}

/// Whether a text is the decimals of a number as a size is written: none,
/// where none are written or they may be dropped, or a point and exactly
/// `decimals` digits.
pub open spec fn is_fraction_text(fraction: Seq<char>, decimals: nat, may_drop: bool) -> bool {
    ||| fraction.len() == 0 && (may_drop || decimals == 0)
    ||| decimals > 0 && fraction.len() == decimals + 1 && fraction[0] == '.' && all_digits(
        fraction.subrange(1, fraction.len() as int),
    )
}

/// Whether `text` writes the count `bytes` as the whole number `shown`, the
/// decimals `fraction`, a space, and the name of the unit at `unit`.
///
/// - The unit is one after the first and no later than the seventh. It is
///   the largest that the count reaches: the count is not below the unit
///   and not above the next one, but for a millionth at most.
/// - The number shown is the count in that unit, rounded: the count lies
///   less than one unit below and less than two units above `shown` units.
/// - A count below 2 to the power 53 that is a whole number of units is
///   shown as that number exactly, with zeros for decimals unless they are
///   dropped. No other such count is shown without the decimals that were
///   asked for.
pub open spec fn is_size_of(
    text: Seq<char>,
    bytes: nat,
    use_1024_instead_of_1000: bool,
    decimals: nat,
    may_drop: bool,
    shown: nat,
    fraction: Seq<char>,
    unit: int,
) -> bool {
    let step = size_step(use_1024_instead_of_1000);
    let size = unit_size(step, unit as nat);
    &&& 1 <= unit <= 6
    &&& is_fraction_text(fraction, decimals, may_drop)
    &&& text == decimal_text(shown) + fraction + seq![' '] + size_units(
        use_1024_instead_of_1000,
    )[unit]
    &&& size * 1_000_000 <= bytes * 1_000_001
    &&& bytes * 1_000_000 <= size * step * 1_000_001
    &&& shown * size <= bytes + size
    &&& bytes < (shown + 2) * size
    &&& bytes < 0x20_0000_0000_0000 && bytes % size == 0 ==> shown * size == bytes && fraction
        == zero_decimals(decimals, may_drop)
    &&& bytes < 0x20_0000_0000_0000 && decimals > 0 && fraction.len() == 0 ==> shown * size
        == bytes
}

/// Whether `text` writes the count `bytes`, of at least one step, in one of
/// the units after the first.
pub open spec fn is_size_text(
    text: Seq<char>,
    bytes: nat,
    use_1024_instead_of_1000: bool,
    decimals: nat,
    may_drop: bool,
) -> bool {
    exists|shown: nat, fraction: Seq<char>, unit: int|
        is_size_of(
            text,
            bytes,
            use_1024_instead_of_1000,
            decimals,
            may_drop,
            shown,
            fraction,
            unit,
        )
}

/// Whether a text holds no minus sign.
pub open spec fn has_no_minus(text: Seq<char>) -> bool {
    forall|i: int| 0 <= i < text.len() ==> text[i] != '-'
}

/// `pretty_bytes_rust::pretty_bytes` with the three options given. The
/// function computes in floating point: it takes the logarithm of the count
/// to the step for the unit, divides the count by that power of the step,
/// and formats the quotient. The contract says what holds whatever the last
/// bits of those results are:
///
/// - a count below the step is written whole in the first unit, `B`, with
///   zeros for decimals unless they are dropped;
/// - a count from the step on is written in the largest unit that it
///   reaches, or in a neighbour of that unit where the count is within a
///   millionth of the border between the two; a count that fits 64 bits
///   reaches the seventh unit at most;
/// - the number is digits alone, or digits, a point and the given number of
///   decimals;
/// - the number is the quotient rounded to those decimals, so its whole
///   part is less than two away from the count divided by the unit;
/// - a count that the conversion to floating point keeps as it is, and that
///   is a whole number of units, has a whole quotient, which is written
///   exactly.
#[verifier::external_body]
pub(crate) fn pretty_size(
    bytes: u64,
    use_1024_instead_of_1000: bool,
    number_of_decimal: Option<u8>,
    remove_zero_decimal: bool,
) -> (text: String)
    ensures
        bytes < size_step(use_1024_instead_of_1000) ==> text@ == decimal_text(bytes as nat)
            + zero_decimals(size_decimals(number_of_decimal), remove_zero_decimal) + seq![' ', 'B'],
        bytes >= size_step(use_1024_instead_of_1000) ==> is_size_text(
            text@,
            bytes as nat,
            use_1024_instead_of_1000,
            size_decimals(number_of_decimal),
            remove_zero_decimal,
        ),
{
    pretty_bytes_rust::pretty_bytes(
        bytes,
        Some(
            pretty_bytes_rust::PrettyBytesOptions {
                use_1024_instead_of_1000: Some(use_1024_instead_of_1000),
                number_of_decimal: number_of_decimal.map(usize::from),
                remove_zero_decimal: Some(remove_zero_decimal),
            },
        ),
    )
}

/// A number in decimal is made of digits.
pub proof fn lemma_decimal_text_digits(n: nat)
    ensures
        all_digits(decimal_text(n)),
        decimal_text(n).len() > 0,
    decreases n,
{
    if n < 10 {
        assert(is_decimal_digit(decimal_digit(n)));
    } else {
        lemma_decimal_text_digits(n / 10);
        assert(is_decimal_digit(decimal_digit(n % 10)));
    }
}

/// No digit is a minus sign.
pub proof fn lemma_digits_no_minus(text: Seq<char>)
    requires
        all_digits(text),
    ensures
        has_no_minus(text),
{
    assert forall|i: int| 0 <= i < text.len() implies text[i] != '-' by {
        assert(is_decimal_digit(text[i]));
    }
}

/// A size holds no minus sign: its number is digits and at most a point,
/// and no unit name holds one.
pub proof fn lemma_size_text_no_minus(
    text: Seq<char>,
    bytes: nat,
    use_1024_instead_of_1000: bool,
    decimals: nat,
    may_drop: bool,
)
    requires
        is_size_text(text, bytes, use_1024_instead_of_1000, decimals, may_drop),
    ensures
        has_no_minus(text),
{
    let (shown, fraction, unit) = choose|shown: nat, fraction: Seq<char>, unit: int|
        is_size_of(
            text,
            bytes,
            use_1024_instead_of_1000,
            decimals,
            may_drop,
            shown,
            fraction,
            unit,
        );
    let whole = decimal_text(shown);
    let name = size_units(use_1024_instead_of_1000)[unit];
    assert(has_no_minus(name));
    lemma_decimal_text_digits(shown);
    lemma_digits_no_minus(whole);
    assert forall|i: int| 0 <= i < fraction.len() implies fraction[i] != '-' by {
        if i > 0 {
            assert(is_decimal_digit(fraction.subrange(1, fraction.len() as int)[i - 1]));
        }
    }
    assert forall|i: int| 0 <= i < text.len() implies text[i] != '-' by {
        if i < whole.len() {
            assert(text[i] == whole[i]);
        } else if i < whole.len() + fraction.len() {
            assert(text[i] == fraction[i - whole.len()]);
        } else if i == whole.len() + fraction.len() {
            assert(text[i] == ' ');
        } else {
            assert(text[i] == name[i - whole.len() - fraction.len() - 1]);
        }
    }
}

/// The units are 1024 apart: a whole number of times 1024 bytes, below 1024
/// times, is written as that number in the second unit, without decimals.
pub proof fn lemma_size_text_of_whole_step(text: Seq<char>, times: nat)
    requires
        0 < times < 1024,
        is_size_text(text, times * 1024, true, 2, true),
    ensures
        text == decimal_text(times) + seq![' ', 'k', 'b', 'i', 't'],
{
    let bytes = times * 1024;
    let (shown, fraction, unit) = choose|shown: nat, fraction: Seq<char>, unit: int|
        is_size_of(text, bytes, true, 2, true, shown, fraction, unit);
    reveal_with_fuel(unit_size, 8);
    assert(unit_size(1024, 1) == 1024);
    assert(unit_size(1024, 2) == 1048576);
    assert(unit == 1) by {
        if unit >= 2 {
            assert(unit_size(1024, unit as nat) >= 1048576);
        }
    }
    assert(bytes % 1024 == 0) by (nonlinear_arith)
        requires
            bytes == times * 1024,
    ;
    assert(shown * 1024 == bytes);
    assert(shown == times);
    assert(fraction =~= Seq::<char>::empty());
    assert(text =~= decimal_text(times) + seq![' ', 'k', 'b', 'i', 't']);
}

/// A byte count for a table cell: `0` for nothing, a count below 1024 as
/// it is with the unit `B`, and a larger one as a number with two decimals
/// or none in a larger unit, the units being 1024 apart.
pub fn display_bytes(bytes: u64) -> (text: String)
    ensures
        bytes == 0 ==> text@ == seq!['0'],
        0 < bytes < 1024 ==> text@ == decimal_text(bytes as nat) + seq![' ', 'B'],
        bytes >= 1024 ==> is_size_text(text@, bytes as nat, true, 2, true),
        has_no_minus(text@),
{
    if bytes == 0 {
        proof {
            reveal_strlit("0");
            assert("0"@ =~= seq!['0']);
        }
        String::from_str("0")
    } else {
        let text = pretty_size(bytes, true, None, true);
        proof {
            if bytes < 1024 {
                let digits = decimal_text(bytes as nat);
                lemma_decimal_text_digits(bytes as nat);
                lemma_digits_no_minus(digits);
                assert(digits + zero_decimals(2, true) =~= digits);
                assert forall|i: int| 0 <= i < text@.len() implies text@[i] != '-' by {
                    if i < digits.len() {
                        assert(text@[i] == digits[i]);
                    }
                }
            } else {
                lemma_size_text_no_minus(text@, bytes as nat, true, 2, true);
            }
        }
        text
    }
}

} // verus!
