//! The validated identity code record and the validation routine.
//!
//! An identity code is an 11-character string laid out as
//! `DDMMYYCIIIS`: day, month and two-digit year as digit pairs, a century
//! marker `C` in `{'+', '-', 'A'}`, a three-digit individual number `III`
//! and a checksum symbol `S` from a fixed 31-symbol alphabet. Validation
//! normalizes the input to uppercase, checks every field and the checksum,
//! and either constructs an immutable record or reports the first failure.

use vstd::prelude::*;

use crate::chars::dec_digits;
use crate::chars::digit_of;
use crate::chars::digit_value;
use crate::chars::is_digit;
use crate::chars::lemma_upper_seq_idempotent;
use crate::chars::push_char;
use crate::chars::push_decimal;
use crate::chars::to_upper_char;
use crate::chars::upper_seq;
use crate::checksum::checksum_symbol_of;
use crate::checksum::compute_checksum_symbol;

verus! {

/// The ways an identity code can be rejected. Every rejection is a
/// deterministic function of the input string.
#[derive(Clone, Copy, Debug, PartialEq, Eq, Structural)]
pub enum ValidationError {
    /// The input is not exactly 11 characters long.
    WrongLength,
    /// The day field does not parse as two digits or is outside 1..=31.
    InvalidDayOfMonth,
    /// The month field does not parse as two digits or is outside 1..=12.
    InvalidMonth,
    /// The year field does not parse as two digits.
    InvalidYear,
    /// The century marker is not one of '+', '-' or 'A'.
    InvalidCenturyMarker,
    /// The individual number does not parse as three digits or is zero.
    InvalidIndividualNumber,
    /// All fields are well-formed but the checksum symbol does not match.
    ChecksumMismatch,
}

/// Both characters of the field starting at offset `i` are digits.
pub open spec fn two_digits_at(t: Seq<char>, i: int) -> bool {
    is_digit(t[i]) && is_digit(t[i + 1])
}

/// The value of the two-digit field starting at offset `i`.
pub open spec fn two_digit_value_at(t: Seq<char>, i: int) -> int {
    10 * digit_value(t[i]) + digit_value(t[i + 1])
}

/// The day field (offsets 0..2) parses and lies in 1..=31.
pub open spec fn day_field_valid(t: Seq<char>) -> bool {
    two_digits_at(t, 0) && 1 <= two_digit_value_at(t, 0) <= 31
}

/// The month field (offsets 2..4) parses and lies in 1..=12.
pub open spec fn month_field_valid(t: Seq<char>) -> bool {
    two_digits_at(t, 2) && 1 <= two_digit_value_at(t, 2) <= 12
}

/// The year field (offsets 4..6) parses as two digits.
pub open spec fn year_field_parses(t: Seq<char>) -> bool {
    two_digits_at(t, 4)
}

/// The century marker (offset 6) is one of the three accepted symbols.
pub open spec fn century_marker_valid(t: Seq<char>) -> bool {
    t[6] == '+' || t[6] == '-' || t[6] == 'A'
}

/// All three characters of the individual number (offsets 7..10) are digits.
pub open spec fn individual_parses(t: Seq<char>) -> bool {
    is_digit(t[7]) && is_digit(t[8]) && is_digit(t[9])
}

/// The value of the individual number field.
pub open spec fn individual_value(t: Seq<char>) -> int {
    100 * digit_value(t[7]) + 10 * digit_value(t[8]) + digit_value(t[9])
}

/// The individual number parses and is at least 1.
pub open spec fn individual_field_valid(t: Seq<char>) -> bool {
    individual_parses(t) && individual_value(t) >= 1
}

/// The checksum symbol (offset 10) matches the one computed from the
/// day, month, two-digit year and individual number fields.
pub open spec fn checksum_matches(t: Seq<char>) -> bool {
    t[10] == checksum_symbol_of(
        two_digit_value_at(t, 0),
        two_digit_value_at(t, 2),
        two_digit_value_at(t, 4),
        individual_value(t),
    )
}

/// The first failure validation reports for input `s`, or `None` when `s`
/// is a valid identity code. The checks run in a fixed order over the
/// uppercased input: length, day, month, century marker, year, individual
/// number, checksum.
pub open spec fn spec_error(s: Seq<char>) -> Option<ValidationError> {
    if s.len() != 11 {
        Some(ValidationError::WrongLength)
    } else {
        let t = upper_seq(s);
        if !day_field_valid(t) {
            Some(ValidationError::InvalidDayOfMonth)
        } else if !month_field_valid(t) {
            Some(ValidationError::InvalidMonth)
        } else if !century_marker_valid(t) {
            Some(ValidationError::InvalidCenturyMarker)
        } else if !year_field_parses(t) {
            Some(ValidationError::InvalidYear)
        } else if !individual_field_valid(t) {
            Some(ValidationError::InvalidIndividualNumber)
        } else if !checksum_matches(t) {
            Some(ValidationError::ChecksumMismatch)
        } else {
            None
        }
    }
}

/// `s` is accepted by validation.
pub open spec fn spec_valid(s: Seq<char>) -> bool {
    spec_error(s) is None
}

/// The century a marker stands for: '+' is the 1800s, '-' the 1900s and
/// 'A' the 2000s.
pub open spec fn century_offset(marker: char) -> int {
    if marker == '+' {
        1800
    } else if marker == '-' {
        1900
    } else {
        2000
    }
}

/// A validated identity code. A value of this type can only be constructed
/// by `Henkilotunnus::from`, so its fields always describe a string that
/// passed every check.
#[derive(Debug)]
pub struct Henkilotunnus {
    raw: String,
    day_of_month: u8,
    month: u8,
    two_digit_year: u8,
    century_marker: char,
    individual_number: u16,
    checksum_symbol: char,
    gender: char,
}

impl Henkilotunnus {
    /// The stored identity code, normalized to uppercase.
    pub closed spec fn spec_raw(self) -> Seq<char> {
        self.raw@
    }

    /// The day of month, 1..=31.
    pub closed spec fn spec_day_of_month(self) -> int {
        self.day_of_month as int
    }

    /// The month, 1..=12.
    pub closed spec fn spec_month(self) -> int {
        self.month as int
    }

    /// The literal two digits of the year field, 0..=99.
    pub closed spec fn spec_two_digit_year(self) -> int {
        self.two_digit_year as int
    }

    /// The century marker, one of '+', '-' or 'A'.
    pub closed spec fn spec_century_marker(self) -> char {
        self.century_marker
    }

    /// The individual number, 1..=999.
    pub closed spec fn spec_individual_number(self) -> int {
        self.individual_number as int
    }

    /// The checksum symbol of the stored code.
    pub closed spec fn spec_checksum_symbol(self) -> char {
        self.checksum_symbol
    }

    /// The derived gender: 'f' for an even individual number, 'm' for an
    /// odd one.
    pub closed spec fn spec_gender(self) -> char {
        self.gender
    }

    /// The full year: the two-digit year plus the century the marker
    /// stands for.
    pub open spec fn spec_full_year(self) -> int {
        self.spec_two_digit_year() + century_offset(self.spec_century_marker())
    }

    /// Well-formedness: the stored code is an uppercase string that passes
    /// every check, and every field holds the value read from it.
    pub open spec fn wf(self) -> bool {
        let t = self.spec_raw();
        &&& t.len() == 11
        &&& upper_seq(t) == t
        &&& spec_valid(t)
        &&& self.spec_day_of_month() == two_digit_value_at(t, 0)
        &&& self.spec_month() == two_digit_value_at(t, 2)
        &&& self.spec_two_digit_year() == two_digit_value_at(t, 4)
        &&& self.spec_century_marker() == t[6]
        &&& self.spec_individual_number() == individual_value(t)
        &&& self.spec_checksum_symbol() == t[10]
        &&& self.spec_gender() == (if individual_value(t) % 2 == 0 {
            'f'
        } else {
            'm'
        })
    }
}

/// `h` is the record validation produces for input `s`: a well-formed
/// record whose stored code is the uppercased input.
pub open spec fn validated_from(s: Seq<char>, h: Henkilotunnus) -> bool {
    h.wf() && h.spec_raw() == upper_seq(s)
}

/// Builds the uppercased copy of a string.
fn uppercase(s: &String) -> (r: String)
    ensures
        r@ == upper_seq(s@),
{
    let n: usize = s.as_str().unicode_len();
    let mut out = String::new();
    let mut i: usize = 0;
    while i < n
        invariant
            n == s@.len(),
            i <= n,
            out@ == upper_seq(s@).subrange(0, i as int),
        decreases n - i,
    {
        let c: char = s.as_str().get_char(i);
        push_char(&mut out, to_upper_char(c));
        proof {
            assert(out@ =~= upper_seq(s@).subrange(0, i + 1 as int));
        }
        i = i + 1;
    }
    proof {
        assert(out@ =~= upper_seq(s@));
    }
    out
}

impl Henkilotunnus {
    /// Validates `henkilotunnus` and constructs the record, or reports the
    /// first failure. Acceptance, every field of a constructed record and
    /// the reported error are all functions of the input string alone.
    pub fn from(henkilotunnus: String) -> (r: Result<Henkilotunnus, ValidationError>)
        ensures
            r is Ok <==> spec_valid(henkilotunnus@),
            r matches Ok(h) ==> validated_from(henkilotunnus@, h),
            r matches Err(e) ==> spec_error(henkilotunnus@) == Some(e),
    {
        let n: usize = henkilotunnus.as_str().unicode_len();
        if n != 11 {
            return Err(ValidationError::WrongLength);
        }
        let up = uppercase(&henkilotunnus);
        let ghost t = up@;
        proof {
            lemma_upper_seq_idempotent(henkilotunnus@);
        }

        let d0 = digit_of(up.as_str().get_char(0));
        let d1 = digit_of(up.as_str().get_char(1));
        let day: u8 = match (d0, d1) {
            (Some(a), Some(b)) => 10 * a + b,
            _ => {
                return Err(ValidationError::InvalidDayOfMonth);
            },
        };
        if day < 1 || day > 31 {
            return Err(ValidationError::InvalidDayOfMonth);
        }

        let m0 = digit_of(up.as_str().get_char(2));
        let m1 = digit_of(up.as_str().get_char(3));
        let month: u8 = match (m0, m1) {
            (Some(a), Some(b)) => 10 * a + b,
            _ => {
                return Err(ValidationError::InvalidMonth);
            },
        };
        if month < 1 || month > 12 {
            return Err(ValidationError::InvalidMonth);
        }

        let century: char = up.as_str().get_char(6);
        if century != '+' && century != '-' && century != 'A' {
            return Err(ValidationError::InvalidCenturyMarker);
        }

        let y0 = digit_of(up.as_str().get_char(4));
        let y1 = digit_of(up.as_str().get_char(5));
        let two_digit_year: u8 = match (y0, y1) {
            (Some(a), Some(b)) => 10 * a + b,
            _ => {
                return Err(ValidationError::InvalidYear);
            },
        };

        let i0 = digit_of(up.as_str().get_char(7));
        let i1 = digit_of(up.as_str().get_char(8));
        let i2 = digit_of(up.as_str().get_char(9));
        let individual: u16 = match (i0, i1, i2) {
            (Some(a), Some(b), Some(c)) => 100 * (a as u16) + 10 * (b as u16) + (c as u16),
            _ => {
                return Err(ValidationError::InvalidIndividualNumber);
            },
        };
        if individual < 1 {
            return Err(ValidationError::InvalidIndividualNumber);
        }

        let expected: char = compute_checksum_symbol(day, month, two_digit_year, individual);
        let checksum: char = up.as_str().get_char(10);
        if checksum != expected {
            return Err(ValidationError::ChecksumMismatch);
        }

        let gender: char = if individual % 2 == 0 {
            'f'
        } else {
            'm'
        };

        Ok(Henkilotunnus {
            raw: up,
            day_of_month: day,
            month,
            two_digit_year,
            century_marker: century,
            individual_number: individual,
            checksum_symbol: checksum,
            gender,
        })
    }

    /// The stored identity code, normalized to uppercase.
    pub fn raw(&self) -> (r: &str)
        ensures
            r@ == self.spec_raw(),
    {
        self.raw.as_str()
    }

    /// The day of month.
    pub fn day_of_month(&self) -> (d: u8)
        ensures
            d as int == self.spec_day_of_month(),
    {
        self.day_of_month
    }

    /// The month.
    pub fn month(&self) -> (m: u8)
        ensures
            m as int == self.spec_month(),
    {
        self.month
    }

    /// The literal two digits of the year field.
    pub fn two_digit_year(&self) -> (y: u8)
        ensures
            y as int == self.spec_two_digit_year(),
    {
        self.two_digit_year
    }

    /// The century marker.
    pub fn century_marker(&self) -> (c: char)
        ensures
            c == self.spec_century_marker(),
    {
        self.century_marker
    }

    /// The full year derived from the two-digit year and the century
    /// marker.
    pub fn full_year(&self) -> (y: u16)
        ensures
            y as int == self.spec_full_year(),
    {
        let base: u16 = if self.century_marker == '+' {
            1800
        } else if self.century_marker == '-' {
            1900
        } else {
            2000
        };
        base + self.two_digit_year as u16
    }

    /// The individual number.
    pub fn individual_number(&self) -> (i: u16)
        ensures
            i as int == self.spec_individual_number(),
    {
        self.individual_number
    }

    /// The checksum symbol.
    pub fn checksum_symbol(&self) -> (c: char)
        ensures
            c == self.spec_checksum_symbol(),
    {
        self.checksum_symbol
    }

    /// The derived gender, 'f' or 'm'.
    pub fn gender(&self) -> (g: char)
        ensures
            g == self.spec_gender(),
    {
        self.gender
    }
}

/// The textual report `to_string` produces: one `Label: value` line per
/// field, in a fixed order.
pub open spec fn spec_render(h: Henkilotunnus) -> Seq<char> {
    "Henkilotunnus: "@ + h.spec_raw() + "\nYear: "@ + dec_digits(h.spec_full_year() as nat)
        + "\nMonth: "@ + dec_digits(h.spec_month() as nat) + "\nDay of month: "@ + dec_digits(
        h.spec_day_of_month() as nat,
    ) + "\nCentury: "@ + seq![h.spec_century_marker()] + "\nChecksum: "@ + seq![
        h.spec_checksum_symbol(),
    ] + "\nId: "@ + dec_digits(h.spec_individual_number() as nat) + "\nGender: "@ + seq![
        h.spec_gender(),
    ]
}

impl Henkilotunnus {
    /// Renders the multi-line report over all fields of the record.
    pub fn to_string(&self) -> (r: String)
        ensures
            r@ == spec_render(*self),
    {
        let mut out = String::from_str("Henkilotunnus: ");
        out.append(self.raw.as_str());
        out.append("\nYear: ");
        push_decimal(&mut out, self.full_year());
        out.append("\nMonth: ");
        push_decimal(&mut out, self.month as u16);
        out.append("\nDay of month: ");
        push_decimal(&mut out, self.day_of_month as u16);
        out.append("\nCentury: ");
        push_char(&mut out, self.century_marker);
        out.append("\nChecksum: ");
        push_char(&mut out, self.checksum_symbol);
        out.append("\nId: ");
        push_decimal(&mut out, self.individual_number);
        out.append("\nGender: ");
        push_char(&mut out, self.gender);
        proof {
            assert(out@ =~= spec_render(*self));
        }
        out
    }
}

/// Law: validation is deterministic. Any two records validated from the
/// same input string agree on every field.
pub proof fn lemma_validate_deterministic(s: Seq<char>, h1: Henkilotunnus, h2: Henkilotunnus)
    requires
        validated_from(s, h1),
        validated_from(s, h2),
    ensures
        h1.spec_raw() == h2.spec_raw(),
        h1.spec_day_of_month() == h2.spec_day_of_month(),
        h1.spec_month() == h2.spec_month(),
        h1.spec_two_digit_year() == h2.spec_two_digit_year(),
        h1.spec_century_marker() == h2.spec_century_marker(),
        h1.spec_full_year() == h2.spec_full_year(),
        h1.spec_individual_number() == h2.spec_individual_number(),
        h1.spec_checksum_symbol() == h2.spec_checksum_symbol(),
        h1.spec_gender() == h2.spec_gender(),
{
}

/// Law: case normalization is idempotent. An input and its uppercased form
/// are accepted or rejected with the same outcome, and the records
/// validation produces for them are the same.
pub proof fn lemma_normalization_idempotent(s: Seq<char>)
    ensures
        spec_error(upper_seq(s)) == spec_error(s),
        forall|h: Henkilotunnus| #[trigger] validated_from(upper_seq(s), h) == validated_from(
            s,
            h,
        ),
{
    lemma_upper_seq_idempotent(s);
}

/// Law: every input whose length is not 11 characters is rejected as
/// `WrongLength`.
pub proof fn lemma_wrong_length(s: Seq<char>)
    requires
        s.len() != 11,
    ensures
        spec_error(s) == Some(ValidationError::WrongLength),
{
}

/// Law: checksum round-trip. Recomputing the checksum symbol from the day,
/// month, two-digit year and individual number of a well-formed record
/// yields its stored checksum symbol.
pub proof fn lemma_checksum_round_trip(h: Henkilotunnus)
    requires
        h.wf(),
    ensures
        h.spec_checksum_symbol() == checksum_symbol_of(
            h.spec_day_of_month(),
            h.spec_month(),
            h.spec_two_digit_year(),
            h.spec_individual_number(),
        ),
{
}

/// Law: gender parity. A well-formed record's gender is 'f' exactly when
/// its individual number is even, and 'm' otherwise.
pub proof fn lemma_gender_parity(h: Henkilotunnus)
    requires
        h.wf(),
    ensures
        (h.spec_gender() == 'f') <==> (h.spec_individual_number() % 2 == 0),
        h.spec_gender() == 'f' || h.spec_gender() == 'm',
{
}

} // verus!
