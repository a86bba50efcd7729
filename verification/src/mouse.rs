use vstd::prelude::*;
use vstd::utf8::valid_utf8;

verus! {

/// The escape byte, which starts multi-byte sequences.
pub const ESCAPE: u8 = 0x1b;

/// An ASCII decimal digit.
pub open spec fn is_digit(b: u8) -> bool {
    0x30 <= b <= 0x39
}

/// Where the field of a mouse report that starts at `from` ends: at the first
/// `;` at or after `from`, or at `end`.
pub open spec fn field_end(bytes: Seq<u8>, from: int, end: int) -> int
    decreases end - from,
{
    if from >= end || bytes[from] == 0x3b {
        from
    } else {
        field_end(bytes, from + 1, end)
    }
}

/// Where the digits of a number written in `bytes[lo..hi]` start: after an
/// optional `+`.
pub open spec fn digits_start(bytes: Seq<u8>, lo: int, hi: int) -> int {
    if lo < hi && bytes[lo] == 0x2b {
        lo + 1
    } else {
        lo
    }
}

/// The decimal value of the digits `bytes[lo..hi]`.
pub open spec fn digits_value(bytes: Seq<u8>, lo: int, hi: int) -> int
    decreases hi - lo,
{
    if hi <= lo {
        0
    } else {
        digits_value(bytes, lo, hi - 1) * 10 + (bytes[hi - 1] - 0x30)
    }
}

/// `bytes[lo..hi]` is written as an unsigned integer is read from text: an
/// optional `+` followed by one or more digits.
pub open spec fn is_number(bytes: Seq<u8>, lo: int, hi: int) -> bool {
    let d = digits_start(bytes, lo, hi);
    d < hi && forall|i: int| d <= i < hi ==> is_digit(#[trigger] bytes[i])
}

/// The value of the number written in `bytes[lo..hi]`.
pub open spec fn number_value(bytes: Seq<u8>, lo: int, hi: int) -> int {
    digits_value(bytes, digits_start(bytes, lo, hi), hi)
}

/// `bytes[lo..hi]` reads as an unsigned integer below `bound`.
pub open spec fn reads_below(bytes: Seq<u8>, lo: int, hi: int, bound: int) -> bool {
    is_number(bytes, lo, hi) && number_value(bytes, lo, hi) < bound
}

/// The button codes that the mouse report decoder knows: the button number
/// (the two low bits, plus four for each of the two high bits) is at most
/// five, or six or seven without the drag bit.
pub open spec fn button_accepted(code: int) -> bool {
    let button = code % 4 + 4 * ((code / 64) % 4);
    let dragging = (code / 32) % 2 == 1;
    button <= 5 || ((button == 6 || button == 7) && !dragging)
}

/// For a mouse report in one of the two encodings that count columns and rows
/// from one, where its `;`-separated fields begin and what is taken off its
/// button code: `ESC [ < ... M` or `ESC [ < ... m` (fields from the fourth
/// byte, nothing taken off), and `ESC [` digit `... M` (fields from the third
/// byte, 32 taken off). The last byte closes the report.
pub open spec fn mouse_fields(bytes: Seq<u8>) -> Option<(int, int)> {
    if bytes.len() >= 4 && bytes[0] == ESCAPE && bytes[1] == 0x5b {
        if bytes[2] == 0x3c && (bytes.last() == 0x4d || bytes.last() == 0x6d) {
            Some((3, 0))
        } else if is_digit(bytes[2]) && bytes.last() == 0x4d {
            Some((2, 32))
        } else {
            None
        }
    } else {
        None
    }
}

/// `bytes` is a mouse report that the decoder reads up to a zero column or
/// row: its fields are valid UTF-8, its button field reads as a byte that
/// leaves a known button code, its column reads as a 16-bit number, and the
/// column is zero or the row reads as a 16-bit zero. Turning such a position
/// into a zero-based one subtracts one from zero.
pub open spec fn may_overflow(bytes: Seq<u8>) -> bool {
    match mouse_fields(bytes) {
        Some((start, offset)) => {
            let end = bytes.len() - 1;
            let p = field_end(bytes, start, end);
            let q = field_end(bytes, p + 1, end);
            let r = field_end(bytes, q + 1, end);
            &&& valid_utf8(bytes.subrange(start, end))
            &&& reads_below(bytes, start, p, 256)
            &&& number_value(bytes, start, p) >= offset
            &&& button_accepted(number_value(bytes, start, p) - offset)
            &&& p < end
            &&& reads_below(bytes, p + 1, q, 65536)
            &&& number_value(bytes, p + 1, q) == 0 || (q < end && reads_below(bytes, q + 1, r, 65536)
                && number_value(bytes, q + 1, r) == 0)
        },
        None => false,
    }
}

/// Calls `std::str::from_utf8`, which succeeds exactly when the bytes are
/// valid UTF-8.
#[verifier::external_body]
fn is_utf8(bytes: &[u8]) -> (r: bool)
    ensures
        r == valid_utf8(bytes@),
{
    std::str::from_utf8(bytes).is_ok()
}

fn find_field_end(bytes: &[u8], from: usize, end: usize) -> (r: usize)
    requires
        from <= end <= bytes@.len(),
    ensures
        r == field_end(bytes@, from as int, end as int),
        from <= r <= end,
{
    let mut i = from;
    while i < end && bytes[i] != 0x3b
        invariant
            from <= i <= end <= bytes@.len(),
            field_end(bytes@, i as int, end as int) == field_end(bytes@, from as int, end as int),
        decreases end - i,
    {
        i = i + 1;
    }
    i
}

proof fn lemma_digits_value_grows(bytes: Seq<u8>, lo: int, hi: int)
    requires
        forall|i: int| lo <= i < hi ==> is_digit(#[trigger] bytes[i]),
    ensures
        digits_value(bytes, lo, hi) >= 0,
    decreases hi - lo,
{
    if hi > lo {
        lemma_digits_value_grows(bytes, lo, hi - 1);
    }
}

/// The value of the number written in `bytes[lo..hi]`, if it reads as one
/// below `bound`.
fn read_below(bytes: &[u8], lo: usize, hi: usize, bound: u32) -> (r: Option<u32>)
    requires
        hi <= bytes@.len(),
        0 < bound <= 65536,
    ensures
        r is Some == reads_below(bytes@, lo as int, hi as int, bound as int),
        r matches Some(v) ==> v == number_value(bytes@, lo as int, hi as int),
{
    if lo >= hi {
        return None;
    }
    let d = if bytes[lo] == 0x2b {
        lo + 1
    } else {
        lo
    };
    assert(d == digits_start(bytes@, lo as int, hi as int));
    if d >= hi {
        return None;
    }
    let mut value: u32 = 0;
    let mut i = d;
    while i < hi
        invariant
            d <= i <= hi <= bytes@.len(),
            d == digits_start(bytes@, lo as int, hi as int),
            0 < bound <= 65536,
            forall|j: int| d <= j < i ==> is_digit(#[trigger] bytes@[j]),
            value == if digits_value(bytes@, d as int, i as int) >= bound {
                bound as int
            } else {
                digits_value(bytes@, d as int, i as int)
            },
        decreases hi - i,
    {
        let b = bytes[i];
        if !(0x30 <= b && b <= 0x39) {
            assert(!is_digit(bytes@[i as int]));
            assert(!is_number(bytes@, lo as int, hi as int));
            return None;
        }
        proof {
            lemma_digits_value_grows(bytes@, d as int, i as int);
        }
        let next = value * 10 + (b - 0x30) as u32;
        value = if next >= bound {
            bound
        } else {
            next
        };
        i = i + 1;
    }
    if value < bound {
        Some(value)
    } else {
        None
    }
}

/// Whether the mouse report decoder knows the button code `code`.
fn button_is_accepted(code: u32) -> (r: bool)
    ensures
        r == button_accepted(code as int),
{
    let button = code % 4 + 4 * ((code / 64) % 4);
    let dragging = (code / 32) % 2 == 1;
    button <= 5 || ((button == 6 || button == 7) && !dragging)
}

/// Whether `bytes` is a mouse report that the decoder reads up to a zero
/// column or row (see `may_overflow`).
pub fn mouse_report_may_overflow(bytes: &[u8]) -> (r: bool)
    ensures
        r == may_overflow(bytes@),
{
    let n = bytes.len();
    if n < 4 || bytes[0] != ESCAPE || bytes[1] != 0x5b {
        return false;
    }
    let last = bytes[n - 1];
    let (start, offset): (usize, u32) = if bytes[2] == 0x3c && (last == 0x4d || last == 0x6d) {
        (3, 0)
    } else if 0x30 <= bytes[2] && bytes[2] <= 0x39 && last == 0x4d {
        (2, 32)
    } else {
        return false;
    };
    let end = n - 1;
    let (head, _) = bytes.split_at(end);
    let (_, payload) = head.split_at(start);
    assert(payload@ == bytes@.subrange(start as int, end as int));
    if !is_utf8(payload) {
        return false;
    }
    let p = find_field_end(bytes, start, end);
    let code = match read_below(bytes, start, p, 256) {
        Some(v) => v,
        None => {
            return false;
        },
    };
    if code < offset || !button_is_accepted(code - offset) || p >= end {
        return false;
    }
    let q = find_field_end(bytes, p + 1, end);
    let column = match read_below(bytes, p + 1, q, 65536) {
        Some(v) => v,
        None => {
            return false;
        },
    };
    if column == 0 {
        return true;
    }
    if q >= end {
        return false;
    }
    let r = find_field_end(bytes, q + 1, end);
    match read_below(bytes, q + 1, r, 65536) {
        Some(row) => row == 0,
        None => false,
    }
}

} // verus!
