//! The controller state that the controlling program asks to be played, and
//! how it is laid over the game's own reading of a controller.
use vstd::prelude::*;
use crate::fetch::{Fetch, FetchAction, FetchActionView};
use crate::paths::{control_state_ok_path, control_state_path, entry_file};

verus! {

/// A controller state as the controlling program writes it for one player.
pub struct ControlState {
    /// Tells one request from the next; a new id means a new request.
    pub id: String,
    /// The player (controller number plus one) the state is meant for.
    pub player_id: u32,
    pub update_count: i64,
    pub buttons: u64,
    pub l_stick_x: i32,
    pub l_stick_y: i32,
    pub r_stick_x: i32,
    pub r_stick_y: i32,
    pub flags: u32,
    pub l_trigger: u32,
    pub r_trigger: u32,
    /// Keep playing this state on every reading, not just once.
    pub hold: bool,
}

impl Default for ControlState {
    /// The empty request: no id, player 0, everything released.
    fn default() -> (s: Self)
        ensures
            s.id@ == Seq::<char>::empty(),
            s.player_id == 0,
            s.update_count == 0,
            s.buttons == 0,
            s.l_stick_x == 0,
            s.l_stick_y == 0,
            s.r_stick_x == 0,
            s.r_stick_y == 0,
            s.flags == 0,
            s.l_trigger == 0,
            s.r_trigger == 0,
            !s.hold,
    {
        ControlState {
            id: String::new(),
            player_id: 0,
            update_count: 0,
            buttons: 0,
            l_stick_x: 0,
            l_stick_y: 0,
            r_stick_x: 0,
            r_stick_y: 0,
            flags: 0,
            l_trigger: 0,
            r_trigger: 0,
            hold: false,
        }
    }
}

impl ControlState {
    /// Begins fetching the controller state written for entry `entry_id`:
    /// the record `control_state_<id>.json`, guarded by the marker
    /// `control_state_<id>.ok.json`. The caller performs the returned action
    /// and drives the fetch with `Fetch::step`.
    pub fn get(entry_id: u32) -> (res: (Fetch<ControlState>, FetchAction<ControlState>))
        ensures
            res.0.marker_path@ == entry_file("control_state"@, entry_id as nat, true),
            res.0.record_path@ == entry_file("control_state"@, entry_id as nat, false),
            res.0.stage is AwaitingMarker,
            res.1@ == FetchActionView::<ControlState>::CheckMarker(
                entry_file("control_state"@, entry_id as nat, true),
            ),
    {
        Fetch::start(control_state_ok_path(entry_id), control_state_path(entry_id))
    }
}

/// The game's reading of one controller, field for field.
#[derive(Clone, Copy, Debug, PartialEq, Eq, Structural)]
pub struct NpadState {
    pub update_count: i64,
    pub buttons: u64,
    pub l_stick_x: i32,
    pub l_stick_y: i32,
    pub r_stick_x: i32,
    pub r_stick_y: i32,
    pub flags: u32,
    pub l_trigger: u32,
    pub r_trigger: u32,
}

/// `pad` with buttons, sticks, flags and triggers taken from `cs`; the update
/// counter is the pad's own.
pub open spec fn pad_with(pad: NpadState, cs: ControlState) -> NpadState {
    NpadState {
        update_count: pad.update_count,
        buttons: cs.buttons,
        l_stick_x: cs.l_stick_x,
        l_stick_y: cs.l_stick_y,
        r_stick_x: cs.r_stick_x,
        r_stick_y: cs.r_stick_y,
        flags: cs.flags,
        l_trigger: cs.l_trigger,
        r_trigger: cs.r_trigger,
    }
}

/// The state to consider: the one just fetched, or, when none could be
/// fetched, the one last played.
pub open spec fn current_state(fetched: Option<ControlState>, last: ControlState) -> ControlState {
    match fetched {
        Some(cs) => cs,
        None => last,
    }
}

/// Whether `cs` is played on the controller of `player_id`, given the state
/// `last` played before: it must be meant for that player, and be either a
/// new request or one to hold.
pub open spec fn plays(cs: ControlState, last: ControlState, player_id: int) -> bool {
    cs.player_id == player_id && (cs.id@ != last.id@ || cs.hold)
}

/// Lays the requested controller state over the game's reading `pad` of
/// controller `controller_id` (whose player number is one more).
/// `fetched` is the state just fetched for that player, if any; `last` is the
/// state played before, and becomes the state played now.
pub fn get_npad_state(
    controller_id: u32,
    fetched: Option<ControlState>,
    last: &mut ControlState,
    pad: &mut NpadState,
)
    requires
        controller_id < u32::MAX,
    ensures
        ({
            let cs = current_state(fetched, *old(last));
            if plays(cs, *old(last), controller_id + 1) {
                *final(last) == cs && *final(pad) == pad_with(*old(pad), cs)
            } else {
                *final(last) == *old(last) && *final(pad) == *old(pad)
            }
        }),
        fetched matches Some(cs) ==> (cs.player_id == controller_id + 1 && (cs.id@ != old(last).id@
            || cs.hold) ==> {
            &&& *final(last) == cs
            &&& final(pad).update_count == old(pad).update_count
            &&& final(pad).buttons == cs.buttons
            &&& final(pad).l_stick_x == cs.l_stick_x
            &&& final(pad).l_stick_y == cs.l_stick_y
            &&& final(pad).r_stick_x == cs.r_stick_x
            &&& final(pad).r_stick_y == cs.r_stick_y
            &&& final(pad).flags == cs.flags
            &&& final(pad).l_trigger == cs.l_trigger
            &&& final(pad).r_trigger == cs.r_trigger
        }),
        fetched is None ==> (old(last).player_id == controller_id + 1 && old(last).hold ==> {
            &&& *final(last) == *old(last)
            &&& final(pad).update_count == old(pad).update_count
            &&& final(pad).buttons == old(last).buttons
            &&& final(pad).l_stick_x == old(last).l_stick_x
            &&& final(pad).l_stick_y == old(last).l_stick_y
            &&& final(pad).r_stick_x == old(last).r_stick_x
            &&& final(pad).r_stick_y == old(last).r_stick_y
            &&& final(pad).flags == old(last).flags
            &&& final(pad).l_trigger == old(last).l_trigger
            &&& final(pad).r_trigger == old(last).r_trigger
        }),
{
    let player_id: u32 = controller_id + 1;
    match fetched {
        Some(cs) => {
            if cs.player_id == player_id && (!(cs.id == last.id) || cs.hold) {
                lay_over(pad, &cs);
                *last = cs;
            }
        },
        None => {
            if last.player_id == player_id && last.hold {
                lay_over(pad, last);
            }
        },
    }
}

fn lay_over(pad: &mut NpadState, cs: &ControlState)
    ensures
        *final(pad) == pad_with(*old(pad), *cs),
{
    pad.buttons = cs.buttons;
    pad.l_stick_x = cs.l_stick_x;
    pad.l_stick_y = cs.l_stick_y;
    pad.r_stick_x = cs.r_stick_x;
    pad.r_stick_y = cs.r_stick_y;
    pad.flags = cs.flags;
    pad.l_trigger = cs.l_trigger;
    pad.r_trigger = cs.r_trigger;
}

/// A request that is not held is played once: once it has been played (and
/// so became the last state), fetching it again, or fetching nothing, plays
/// nothing.
pub proof fn lemma_request_played_once(cs: ControlState, last: ControlState, player_id: int)
    requires
        plays(cs, last, player_id),
        !cs.hold,
    ensures
        !plays(current_state(Some(cs), cs), cs, player_id),
        !plays(current_state(None, cs), cs, player_id),
{
}

/// A held request keeps being played on every reading of its player's
/// controller, even when nothing new can be fetched.
pub proof fn lemma_held_request_replayed(last: ControlState, player_id: int)
    requires
        last.player_id == player_id,
        last.hold,
    ensures
        plays(current_state(None, last), last, player_id),
{
}

/// A state meant for another player never touches this controller.
pub proof fn lemma_other_player_untouched(
    fetched: Option<ControlState>,
    last: ControlState,
    player_id: int,
)
    requires
        current_state(fetched, last).player_id != player_id,
    ensures
        !plays(current_state(fetched, last), last, player_id),
{
}

/// Playing a state never alters the controller's update counter, and
/// playing the same state twice leaves the controller as playing it once.
pub proof fn lemma_pad_with_laws(pad: NpadState, cs: ControlState)
    ensures
        pad_with(pad, cs).update_count == pad.update_count,
        pad_with(pad_with(pad, cs), cs) == pad_with(pad, cs),
{
}

/// A state for the player with an id other than the last one's is a new
/// request and is always played, whatever buttons, sticks or triggers it
/// holds; a held state for the player is played too.
pub proof fn lemma_new_or_held_request_played(cs: ControlState, last: ControlState, player_id: int)
    requires
        cs.player_id == player_id,
        cs.id@ != last.id@ || cs.hold,
    ensures
        plays(cs, last, player_id),
{
}

/// Playing a state puts every one of its buttons, sticks, flags and triggers
/// on the controller, whatever the controller read before; only the update
/// counter is the controller's own.
pub proof fn lemma_pad_with_fields(pad: NpadState, cs: ControlState)
    ensures
        pad_with(pad, cs).buttons == cs.buttons,
        pad_with(pad, cs).l_stick_x == cs.l_stick_x,
        pad_with(pad, cs).l_stick_y == cs.l_stick_y,
        pad_with(pad, cs).r_stick_x == cs.r_stick_x,
        pad_with(pad, cs).r_stick_y == cs.r_stick_y,
        pad_with(pad, cs).flags == cs.flags,
        pad_with(pad, cs).l_trigger == cs.l_trigger,
        pad_with(pad, cs).r_trigger == cs.r_trigger,
        pad_with(pad, cs).update_count == pad.update_count,
        forall|other: NpadState| #[trigger] pad_with(other, cs).buttons == pad_with(pad, cs).buttons,
{
}

} // verus!
