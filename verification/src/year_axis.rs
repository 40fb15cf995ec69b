//! The historical year axis has no year zero: 1 BC (written `-1`) is
//! followed at once by 1 AD (written `1`).  All period arithmetic runs on
//! the accumulated axis, a gap-free integer axis on which 1 BC is
//! [`ACC_BC1`] and 1 AD is `ACC_BC1 + 1`.

use vstd::prelude::*;

verus! {

/// Accumulated year of 1 BC.
pub const ACC_BC1: i32 = 67017;

/// Accumulated year of a historical year.  Meaningful for `year != 0`.
pub open spec fn year_to_acc_spec(year: int) -> int {
    if year >= 1 {
        ACC_BC1 + year
    } else {
        ACC_BC1 + year + 1
    }
}

/// Historical year of an accumulated year.  Never zero.
pub open spec fn acc_to_year_spec(acc: int) -> int {
    if acc >= ACC_BC1 + 1 {
        acc - ACC_BC1
    } else {
        acc - ACC_BC1 - 1
    }
}

/// The message carried by the error of [`year_to_acc`].
pub open spec fn year_zero_message() -> Seq<char> {
    "公元0年不存在"@
}

/// Converts a historical year to its accumulated year.
///
/// Year zero does not exist and is the only rejected input.
pub fn year_to_acc(year: i32) -> (r: Result<i32, &'static str>)
    requires
        year <= i32::MAX - ACC_BC1,
    ensures
        year == 0 <==> r is Err,
        r matches Ok(acc) ==> acc == year_to_acc_spec(year as int),
        r matches Err(msg) ==> msg@ == year_zero_message(),
{
    if year == 0 {
        return Err("公元0年不存在");
    }
    if year >= 1 {
        Ok(ACC_BC1 + year)
    } else {
        Ok(ACC_BC1 + year + 1)
    }
}

/// Converts an accumulated year back to its historical year.
pub fn acc_to_year(acc: i32) -> (year: i32)
    requires
        acc >= i32::MIN + ACC_BC1 + 1,
    ensures
        year == acc_to_year_spec(acc as int),
        year != 0,
{
    if acc >= ACC_BC1 + 1 {
        acc - ACC_BC1
    } else {
        acc - ACC_BC1 - 1
    }
}

/// Converting a nonzero year to the accumulated axis and back gives the
/// year again.
pub proof fn lemma_year_acc_roundtrip(year: int)
    requires
        year != 0,
    ensures
        acc_to_year_spec(year_to_acc_spec(year)) == year,
{
}

/// Converting an accumulated year to a historical year and back gives the
/// accumulated year again, and the historical year is never zero.
pub proof fn lemma_acc_year_roundtrip(acc: int)
    ensures
        acc_to_year_spec(acc) != 0,
        year_to_acc_spec(acc_to_year_spec(acc)) == acc,
{
}

/// The next historical year after `year`, skipping the missing year zero.
pub open spec fn next_year(year: int) -> int {
    if year == -1 {
        1
    } else {
        year + 1
    }
}

/// Consecutive historical years map to consecutive accumulated years, also
/// across the seam between 1 BC and 1 AD.
pub proof fn lemma_consecutive_years(year: int)
    requires
        year != 0,
    ensures
        year_to_acc_spec(next_year(year)) == year_to_acc_spec(year) + 1,
{
}

/// The accumulated axis preserves the order of historical years.
pub proof fn lemma_year_to_acc_monotonic(a: int, b: int)
    requires
        a != 0,
        b != 0,
        a < b,
    ensures
        year_to_acc_spec(a) < year_to_acc_spec(b),
{
}

} // verus!
