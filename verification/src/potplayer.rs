//! PotPlayer window-message codes. Channel one is the official `WM_USER` SDK
//! (exact rate set and read back, 0.2×–12×); channel two the `WM_COMMAND`
//! hotkey commands (steps only).

use vstd::prelude::*;

verus! {

/// Main window class, 64-bit build.
pub const WINDOW_CLASS_64: &'static str = "PotPlayer64";

/// Main window class, 32-bit build.
pub const WINDOW_CLASS_32: &'static str = "PotPlayer";

/// Query the play state (0 stopped, 1 paused, 2 playing).
pub const POT_GET_PLAY_STATUS: usize = 0x5006;

/// Set the play state (lParam 0 toggle, 1 pause, 2 play).
pub const POT_SET_PLAY_STATUS: usize = 0x5007;

pub const POT_PLAY_STATUS_TOGGLE: isize = 0;

pub const POT_PLAY_STATUS_PAUSE: isize = 1;

pub const POT_PLAY_STATUS_PLAY: isize = 2;

/// Query the rate; the result is the rate in thousandths (200–12000).
pub const POT_GET_SPEED: usize = 0x5015;

/// Set an exact rate in one message; lParam is the rate in thousandths.
pub const POT_SET_SPEED: usize = 0x5016;

/// lParam units per 1×.
pub const POT_SPEED_SCALE: isize = 1000;

/// Lowest SDK rate parameter (0.2×).
pub const POT_SPEED_MIN: isize = 200;

/// Highest SDK rate parameter (12×), below the product's 16×.
pub const POT_SPEED_MAX: isize = 12000;

/// Toggle play / pause (community command table).
pub const CMD_PLAY_PAUSE: usize = 10014;

/// Back to 1×.
pub const CMD_SPEED_NORMAL: usize = 10246;

/// About 0.1× slower.
pub const CMD_SPEED_DOWN: usize = 10247;

/// About 0.1× faster.
pub const CMD_SPEED_UP: usize = 10248;

/// The SDK rate parameter of a rate: the rate brought into 200–12000.
pub open spec fn speed_to_lparam_spec(speed: u32) -> int {
    if speed < 200 {
        200
    } else if speed > 12000 {
        12000
    } else {
        speed as int
    }
}

/// Target rate (thousandths) → `POT_SET_SPEED` lParam, brought into the SDK
/// range 200–12000 that the player accepts.
pub fn speed_to_lparam(speed: u32) -> (r: isize)
    ensures
        r == speed_to_lparam_spec(speed),
        POT_SPEED_MIN <= r <= POT_SPEED_MAX,
{
    if speed < 200 {
        POT_SPEED_MIN
    } else if speed > 12000 {
        POT_SPEED_MAX
    } else {
        speed as isize
    }
}

/// `POT_GET_SPEED` result → rate in thousandths.
pub fn speed_from_lresult(value: isize) -> (r: i64)
    ensures
        r == value,
{
    value as i64
}

/// Setting a rate within the SDK range and reading it back gives the same rate.
pub proof fn law_speed_round_trip(speed: u32)
    requires
        200 <= speed <= 12000,
    ensures
        (if speed < 200 {
            200
        } else if speed > 12000 {
            12000
        } else {
            speed as int
        }) == speed,
{
}

} // verus!
