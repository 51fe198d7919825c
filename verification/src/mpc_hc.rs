//! MPC-HC window-message command codes (`SendMessage(hwnd, WM_COMMAND, ID, 0)`),
//! taken from `src/mpc-hc/resource.h` of the maintained clsid2 fork. No focus
//! is needed. MPC-BE shares 887–896 but has no absolute rate commands.

use vstd::prelude::*;

verus! {

/// Main window class of MPC-HC.
pub const WINDOW_CLASS: &'static str = "MediaPlayerClassicW";

/// Main window class of MPC-BE.
pub const WINDOW_CLASS_MPC_BE: &'static str = "MPC-BE";

/// Play.
pub const ID_PLAY_PLAY: usize = 887;

/// Pause.
pub const ID_PLAY_PAUSE: usize = 888;

/// Toggle play / pause.
pub const ID_PLAY_PLAYPAUSE: usize = 889;

/// Stop.
pub const ID_PLAY_STOP: usize = 890;

/// One notch slower.
pub const ID_PLAY_DECRATE: usize = 894;

/// One notch faster.
pub const ID_PLAY_INCRATE: usize = 895;

/// Back to 1× (every MPC variant).
pub const ID_PLAY_RESETRATE: usize = 896;

/// Absolute rate command → the exact rate it sets (thousandths of normal speed),
/// ascending by rate. One message lands on the rate whatever the player's state.
pub const PLAYBACK_RATES: [(usize, u32); 14] = [
    (5001, 250),
    (5002, 500),
    (5003, 750),
    (5004, 900),
    (5005, 1000),
    (5006, 1100),
    (5007, 1250),
    (5008, 1500),
    (5009, 1750),
    (5010, 2000),
    (5011, 3000),
    (5012, 4000),
    (5013, 6000),
    (5014, 8000),
];

/// The absolute rate table as a sequence of (command, rate) pairs.
pub open spec fn rate_table() -> Seq<(usize, u32)> {
    seq![
        (5001usize, 250u32),
        (5002, 500),
        (5003, 750),
        (5004, 900),
        (5005, 1000),
        (5006, 1100),
        (5007, 1250),
        (5008, 1500),
        (5009, 1750),
        (5010, 2000),
        (5011, 3000),
        (5012, 4000),
        (5013, 6000),
        (5014, 8000),
    ]
}

/// The rates of the table, in order.
pub open spec fn ladder_rates() -> Seq<u32> {
    rate_table().map_values(|e: (usize, u32)| e.1)
}

proof fn lemma_table_is_const()
    ensures
        PLAYBACK_RATES@ == rate_table(),
{
    assert(PLAYBACK_RATES@ =~= rate_table());
}

/// Every rate the absolute commands can reach, ascending.
pub fn rate_ladder() -> (r: Vec<u32>)
    ensures
        r@ == ladder_rates(),
{
    proof {
        lemma_table_is_const();
    }
    let mut r: Vec<u32> = Vec::new();
    let mut i: usize = 0;
    while i < PLAYBACK_RATES.len()
        invariant
            PLAYBACK_RATES@ == rate_table(),
            i <= 14,
            r@ == ladder_rates().subrange(0, i as int),
        decreases 14 - i,
    {
        r.push(PLAYBACK_RATES[i].1);
        assert(ladder_rates().subrange(0, i + 1) =~= ladder_rates().subrange(0, i as int).push(
            PLAYBACK_RATES@[i as int].1,
        ));
        i = i + 1;
    }
    assert(ladder_rates().subrange(0, 14) =~= ladder_rates());
    r
}

/// The command of the first table entry whose rate is `rate`.
pub open spec fn command_spec(rate: u32, i: int) -> Option<usize>
    decreases 14 - i,
{
    if i >= 14 || i < 0 {
        None
    } else if rate_table()[i].1 == rate {
        Some(rate_table()[i].0)
    } else {
        command_spec(rate, i + 1)
    }
}

/// Rung → its absolute rate command; `None` for a rate that is not a rung.
pub fn command_for(rate: u32) -> (r: Option<usize>)
    ensures
        r == command_spec(rate, 0),
{
    proof {
        lemma_table_is_const();
    }
    let mut i: usize = 0;
    while i < PLAYBACK_RATES.len()
        invariant
            PLAYBACK_RATES@ == rate_table(),
            i <= 14,
            command_spec(rate, 0) == command_spec(rate, i as int),
        decreases 14 - i,
    {
        if PLAYBACK_RATES[i].1 == rate {
            return Some(PLAYBACK_RATES[i].0);
        }
        i = i + 1;
    }
    None
}

/// The table's commands are consecutive from 5001 and its rates strictly
/// ascending, 1× among them; every rung maps back to its own command, and
/// nothing else maps to a command.
pub proof fn law_rate_table_consistent()
    ensures
        forall|i: int| 0 <= i < 14 ==> #[trigger] rate_table()[i].0 == 5001 + i,
        forall|i: int, j: int| 0 <= i < j < 14 ==> rate_table()[i].1 < rate_table()[j].1,
        forall|i: int| 0 <= i < 14 ==> command_spec(#[trigger] rate_table()[i].1, 0) == Some(
            rate_table()[i].0,
        ),
        ladder_rates().contains(1000),
        forall|r: u32| command_spec(r, 0) is Some ==> #[trigger] ladder_rates().contains(r),
{
    let t = rate_table();
    assert(ladder_rates()[4] == 1000);
    assert forall|i: int| 0 <= i < 14 implies command_spec(#[trigger] t[i].1, 0) == Some(t[i].0) by {
        reveal_with_fuel(command_spec, 15);
    }
    assert forall|r: u32| command_spec(r, 0) is Some implies #[trigger] ladder_rates().contains(r) by {
        reveal_with_fuel(command_spec, 15);
        let k = choose|k: int| 0 <= k < 14 && t[k].1 == r;
        assert(ladder_rates()[k] == r);
    }
}

} // verus!
