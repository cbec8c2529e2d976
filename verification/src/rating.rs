//! The star-rating column's click and drag rules. The pointer's position is
//! turned into the index of the star under it (0 for the first star) by the
//! widget; these decide the rating that index sets.
use vstd::prelude::*;

verus! {

/// The number of stars in a rating row.
pub const MAX_STARS: i32 = 5;

/// The star a hit at star index `idx` points at, clamped to 1..=5: a hit
/// before the row is the first star, past it the last.
pub open spec fn star_at(idx: int) -> int {
    let c = idx + 1;
    if c < 1 {
        1
    } else if c > MAX_STARS {
        MAX_STARS as int
    } else {
        c
    }
}

/// The rating a drag sweep ending at star index `idx` sets: the star under
/// the pointer, never zero (a sweep never clears).
pub fn rating_from_drag(idx: i32) -> (r: u8)
    requires
        idx < i32::MAX,
    ensures
        r == star_at(idx as int),
{
    let c = idx + 1;
    if c < 1 {
        1
    } else if c > MAX_STARS {
        MAX_STARS as u8
    } else {
        c as u8
    }
}

/// The rating a click at star index `idx` sets on a row rated `current`: the
/// star under the pointer, or 0 when that star is already the top one (a
/// click on the current rating clears it).
pub fn rating_from_click(idx: i32, current: i32) -> (r: u8)
    requires
        idx < i32::MAX,
    ensures
        r == (if current == star_at(idx as int) {
            0
        } else {
            star_at(idx as int)
        }),
{
    let clicked = rating_from_drag(idx);
    if current == clicked as i32 {
        0
    } else {
        clicked
    }
}

} // verus!
