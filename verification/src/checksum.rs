//! The checksum algorithm of the identity code: a fixed 31-symbol alphabet
//! indexed by a weighted combination of the numeric fields, modulo 31.

use vstd::prelude::*;

verus! {

/// The 31-symbol checksum alphabet (it deliberately excludes G, I, O and Q).
pub open spec fn checksum_alphabet() -> Seq<char> {
    seq![
        '0', '1', '2', '3', '4', '5', '6', '7', '8', '9',
        'A', 'B', 'C', 'D', 'E', 'F', 'H', 'J', 'K', 'L',
        'M', 'N', 'P', 'R', 'S', 'T', 'U', 'V', 'W', 'X',
        'Y',
    ]
}

/// The integer the checksum is computed from: the individual number plus the
/// two-digit year, the month and the day, each shifted into its own decimal
/// position.
pub open spec fn checksum_input(day: int, month: int, year: int, individual: int) -> int {
    individual + year * 1000 + month * 100000 + day * 10000000
}

/// The checksum symbol determined by the four numeric fields.
pub open spec fn checksum_symbol_of(day: int, month: int, year: int, individual: int) -> char {
    checksum_alphabet()[checksum_input(day, month, year, individual) % 31]
}

/// Computes the checksum symbol for the given day, month, two-digit year and
/// individual number.
pub fn compute_checksum_symbol(day: u8, month: u8, year: u8, individual: u16) -> (c: char)
    requires
        day <= 31,
        month <= 12,
        year <= 99,
        individual <= 999,
    ensures
        c == checksum_symbol_of(day as int, month as int, year as int, individual as int),
{
    let input: u32 = individual as u32 + year as u32 * 1000 + month as u32 * 100000
        + day as u32 * 10000000;
    let index: usize = (input % 31) as usize;
    let alphabet = "0123456789ABCDEFHJKLMNPRSTUVWXY";
    proof {
        reveal_strlit("0123456789ABCDEFHJKLMNPRSTUVWXY");
        assert(alphabet@ =~= checksum_alphabet());
    }
    alphabet.get_char(index)
}

} // verus!
