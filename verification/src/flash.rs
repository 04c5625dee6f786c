//! The text form of a flash image: lines of byte values in decimal,
//! separated by commas.

use vstd::prelude::*;
use vstd::slice::slice_subrange;

verus! {

/// The ASCII code of `+`.
pub const PLUS: u8 = 43;

/// The ASCII code of `,`.
pub const COMMA: u8 = 44;

/// The ASCII code of `0`.
pub const ZERO: u8 = 48;

/// The ASCII code of `9`.
pub const NINE: u8 = 57;

/// Whether `b` is an ASCII digit.
pub open spec fn is_digit(b: u8) -> bool {
    ZERO <= b <= NINE
}

/// The number that the ASCII digits `digits` spell in decimal.
pub open spec fn digits_value(digits: Seq<u8>) -> nat
    decreases digits.len(),
{
    if digits.len() == 0 {
        0
    } else {
        digits_value(digits.drop_last()) * 10 + (digits.last() - ZERO) as nat
    }
}

/// The field without its sign, where it begins with `+`.
pub open spec fn unsigned(field: Seq<u8>) -> Seq<u8> {
    if field.len() > 0 && field[0] == PLUS {
        field.skip(1)
    } else {
        field
    }
}

/// The byte that `field` spells: an optional `+`, then one digit or more and
/// nothing else, with a value of at most 255. Leading zeros are accepted;
/// blanks, a `-` and an empty field are not.
pub open spec fn byte_value(field: Seq<u8>) -> Option<u8> {
    let digits = unsigned(field);
    if digits.len() > 0 && (forall|i: int| 0 <= i < digits.len() ==> is_digit(#[trigger] digits[i]))
        && digits_value(digits) <= 255 {
        Some(digits_value(digits) as u8)
    } else {
        None
    }
}

/// The fields of `line`: what stands between its commas, before the first
/// and after the last. A line without a comma is one field.
pub open spec fn fields(line: Seq<u8>) -> Seq<Seq<u8>>
    decreases line.len(),
{
    if line.len() == 0 {
        seq![Seq::empty()]
    } else {
        let before = fields(line.drop_last());
        if line.last() == COMMA {
            before.push(Seq::empty())
        } else {
            before.drop_last().push(before.last().push(line.last()))
        }
    }
}

/// The bytes that `fields` spell, in order, with the empty fields passed
/// over; none where a field that is not empty spells no byte.
pub open spec fn row_of(fields: Seq<Seq<u8>>) -> Option<Seq<u8>>
    decreases fields.len(),
{
    if fields.len() == 0 {
        Some(Seq::empty())
    } else {
        match row_of(fields.drop_last()) {
            None => None,
            Some(before) => if fields.last().len() == 0 {
                Some(before)
            } else {
                match byte_value(fields.last()) {
                    Some(byte) => Some(before.push(byte)),
                    None => None,
                }
            },
        }
    }
}

/// The bytes that `line` holds; none where one of its fields is malformed.
pub open spec fn row(line: Seq<u8>) -> Option<Seq<u8>> {
    row_of(fields(line))
}

proof fn lemma_digits_grow(digits: Seq<u8>, n: int)
    requires
        0 <= n <= digits.len(),
        forall|i: int| 0 <= i < digits.len() ==> is_digit(#[trigger] digits[i]),
    ensures
        digits_value(digits.take(n)) <= digits_value(digits),
    decreases digits.len() - n,
{
    if n < digits.len() {
        assert(digits.take(n + 1).drop_last() =~= digits.take(n));
        lemma_digits_grow(digits, n + 1);
    } else {
        assert(digits.take(n) =~= digits);
    }
}

/// Reads one field as a byte.
pub fn parse_byte(field: &[u8]) -> (byte: Option<u8>)
    ensures
        byte == byte_value(field@),
{
    let start: usize = if field.len() > 0 && field[0] == PLUS { 1 } else { 0 };
    let ghost digits = unsigned(field@);
    if start == field.len() {
        return None;
    }
    let mut value: u32 = 0;
    let mut i: usize = start;
    while i < field.len()
        invariant
            start <= i <= field@.len(),
            digits == field@.skip(start as int),
            digits == unsigned(field@),
            forall|k: int| 0 <= k < i - start ==> is_digit(#[trigger] digits[k]),
            value == digits_value(digits.take(i - start)),
            value <= 255,
        decreases field@.len() - i,
    {
        let b: u8 = field[i];
        assert(digits[i - start] == b);
        if b < ZERO || b > NINE {
            return None;
        }
        assert(digits.take(i - start + 1).drop_last() =~= digits.take(i - start));
        value = value * 10 + (b - ZERO) as u32;
        if value > 255 {
            proof {
                if forall|k: int| 0 <= k < digits.len() ==> is_digit(#[trigger] digits[k]) {
                    lemma_digits_grow(digits, i - start + 1);
                }
            }
            return None;
        }
        i += 1;
    }
    assert(digits.take(i - start) =~= digits);
    Some(value as u8)
}

/// Reads one line of a flash image.
pub fn parse_row(line: &[u8]) -> (bytes: Option<Vec<u8>>)
    ensures
        match bytes {
            Some(bytes) => row(line@) == Some(bytes@),
            None => row(line@) is None,
        },
{
    let mut bytes: Vec<u8> = Vec::new();
    let mut start: usize = 0;
    let mut pos: usize = 0;
    while pos < line.len()
        invariant
            start <= pos <= line@.len(),
            fields(line@.take(pos as int)).len() > 0,
            fields(line@.take(pos as int)).last() == line@.subrange(start as int, pos as int),
            row_of(fields(line@.take(pos as int)).drop_last()) == Some(bytes@),
        decreases line@.len() - pos,
    {
        let ghost seen = fields(line@.take(pos as int));
        assert(line@.take(pos + 1).drop_last() =~= line@.take(pos as int));
        if line[pos] == COMMA {
            assert(seen.push(Seq::empty()).drop_last() =~= seen);
            if pos > start {
                match parse_byte(slice_subrange(line, start, pos)) {
                    Some(byte) => {
                        bytes.push(byte);
                    },
                    None => {
                        proof {
                            lemma_row_stays_malformed(line@, pos + 1);
                        }
                        return None;
                    },
                }
            }
            start = pos + 1;
        } else {
            let ghost longer = seen.drop_last().push(seen.last().push(line@[pos as int]));
            assert(longer.drop_last() =~= seen.drop_last());
        }
        pos += 1;
    }
    assert(line@.take(pos as int) =~= line@);
    if pos > start {
        match parse_byte(slice_subrange(line, start, pos)) {
            Some(byte) => {
                bytes.push(byte);
            },
            None => {
                return None;
            },
        }
    }
    Some(bytes)
}

/// Once a field of a line has ended malformed, whatever follows on the line
/// cannot mend it.
proof fn lemma_row_stays_malformed(line: Seq<u8>, n: int)
    requires
        0 <= n <= line.len(),
        row_of(fields(line.take(n)).drop_last()) is None,
    ensures
        row(line) is None,
    decreases line.len() - n,
{
    lemma_fields_not_empty(line.take(n));
    if n < line.len() {
        let seen = fields(line.take(n));
        assert(line.take(n + 1).drop_last() =~= line.take(n));
        if line[n] == COMMA {
            assert(seen.push(Seq::empty()).drop_last() =~= seen);
        } else {
            let longer = seen.drop_last().push(seen.last().push(line[n]));
            assert(longer.drop_last() =~= seen.drop_last());
        }
        lemma_row_stays_malformed(line, n + 1);
    } else {
        assert(line.take(n) =~= line);
    }
}

proof fn lemma_fields_not_empty(line: Seq<u8>)
    ensures
        fields(line).len() > 0,
    decreases line.len(),
{
    if line.len() > 0 {
        lemma_fields_not_empty(line.drop_last());
    }
}

/// Appends to `image` the bytes that `line` holds. A line with a malformed
/// field is passed over whole.
pub fn extend_with_row(image: &mut Vec<u8>, line: &[u8])
    ensures
        final(image)@ == old(image)@ + match row(line@) {
            Some(bytes) => bytes,
            None => Seq::<u8>::empty(),
        },
{
    match parse_row(line) {
        Some(bytes) => {
            let mut i: usize = 0;
            while i < bytes.len()
                invariant
                    i <= bytes@.len(),
                    image@ == old(image)@ + bytes@.subrange(0, i as int),
                decreases bytes@.len() - i,
            {
                image.push(bytes[i]);
                i += 1;
            }
        },
        None => {
        },
    }
}

} // verus!
