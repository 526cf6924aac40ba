//! Commands sent by the controlling program, and the category-1 command flag
//! that a new command stands for.
use vstd::prelude::*;
use crate::fetch::{Fetch, FetchAction, FetchActionView, FetchError};
use crate::paths::{command_ok_path, command_path, entry_file};

verus! {

/// What a command asks the fighter to do.
#[allow(non_camel_case_types)]
#[derive(Clone, Copy, Debug, PartialEq, Eq, Structural)]
pub enum Action {
    AIR_ESCAPE,
    ATTACK_HI3,
    ATTACK_HI4,
    ATTACK_LW3,
    ATTACK_LW4,
    ATTACK_N,
    ATTACK_S3,
    ATTACK_S4,
    CATCH,
    DASH,
    ESCAPE,
    ESCAPE_B,
    ESCAPE_F,
    JUMP,
    JUMP_BUTTON,
    SPECIAL_ANY,
    SPECIAL_HI,
    SPECIAL_LW,
    SPECIAL_N,
    SPECIAL_S,
    TURN,
    TURN_DASH,
    WALK,
    WALL_JUMP_LEFT,
    WALL_JUMP_RIGHT,
    /// Any action for which no category-1 command flag exists.
    OTHER,
}

/// The game's category-1 command flag for each action, as the game reports
/// them at run time.
#[derive(Clone, Copy, Debug, PartialEq, Eq, Structural)]
pub struct Cat1Flags {
    pub air_escape: i32,
    pub attack_hi3: i32,
    pub attack_hi4: i32,
    pub attack_lw3: i32,
    pub attack_lw4: i32,
    pub attack_n: i32,
    pub attack_s3: i32,
    pub attack_s4: i32,
    pub catch: i32,
    pub dash: i32,
    pub escape: i32,
    pub escape_b: i32,
    pub escape_f: i32,
    pub jump: i32,
    pub jump_button: i32,
    pub special_any: i32,
    pub special_hi: i32,
    pub special_lw: i32,
    pub special_n: i32,
    pub special_s: i32,
    pub turn: i32,
    pub turn_dash: i32,
    pub walk: i32,
    pub wall_jump_left: i32,
    pub wall_jump_right: i32,
}

/// The category-1 command flag that `action` stands for, if any.
pub open spec fn flag_of(action: Action, flags: Cat1Flags) -> Option<i32> {
    match action {
        Action::AIR_ESCAPE => Some(flags.air_escape),
        Action::ATTACK_HI3 => Some(flags.attack_hi3),
        Action::ATTACK_HI4 => Some(flags.attack_hi4),
        Action::ATTACK_LW3 => Some(flags.attack_lw3),
        Action::ATTACK_LW4 => Some(flags.attack_lw4),
        Action::ATTACK_N => Some(flags.attack_n),
        Action::ATTACK_S3 => Some(flags.attack_s3),
        Action::ATTACK_S4 => Some(flags.attack_s4),
        Action::CATCH => Some(flags.catch),
        Action::DASH => Some(flags.dash),
        Action::ESCAPE => Some(flags.escape),
        Action::ESCAPE_B => Some(flags.escape_b),
        Action::ESCAPE_F => Some(flags.escape_f),
        Action::JUMP => Some(flags.jump),
        Action::JUMP_BUTTON => Some(flags.jump_button),
        Action::SPECIAL_ANY => Some(flags.special_any),
        Action::SPECIAL_HI => Some(flags.special_hi),
        Action::SPECIAL_LW => Some(flags.special_lw),
        Action::SPECIAL_N => Some(flags.special_n),
        Action::SPECIAL_S => Some(flags.special_s),
        Action::TURN => Some(flags.turn),
        Action::TURN_DASH => Some(flags.turn_dash),
        Action::WALK => Some(flags.walk),
        Action::WALL_JUMP_LEFT => Some(flags.wall_jump_left),
        Action::WALL_JUMP_RIGHT => Some(flags.wall_jump_right),
        Action::OTHER => None,
    }
}

/// Looks up the category-1 command flag of `action`.
pub fn action_flag(action: Action, flags: &Cat1Flags) -> (flag: Option<i32>)
    ensures
        flag == flag_of(action, *flags),
{
    match action {
        Action::AIR_ESCAPE => Some(flags.air_escape),
        Action::ATTACK_HI3 => Some(flags.attack_hi3),
        Action::ATTACK_HI4 => Some(flags.attack_hi4),
        Action::ATTACK_LW3 => Some(flags.attack_lw3),
        Action::ATTACK_LW4 => Some(flags.attack_lw4),
        Action::ATTACK_N => Some(flags.attack_n),
        Action::ATTACK_S3 => Some(flags.attack_s3),
        Action::ATTACK_S4 => Some(flags.attack_s4),
        Action::CATCH => Some(flags.catch),
        Action::DASH => Some(flags.dash),
        Action::ESCAPE => Some(flags.escape),
        Action::ESCAPE_B => Some(flags.escape_b),
        Action::ESCAPE_F => Some(flags.escape_f),
        Action::JUMP => Some(flags.jump),
        Action::JUMP_BUTTON => Some(flags.jump_button),
        Action::SPECIAL_ANY => Some(flags.special_any),
        Action::SPECIAL_HI => Some(flags.special_hi),
        Action::SPECIAL_LW => Some(flags.special_lw),
        Action::SPECIAL_N => Some(flags.special_n),
        Action::SPECIAL_S => Some(flags.special_s),
        Action::TURN => Some(flags.turn),
        Action::TURN_DASH => Some(flags.turn_dash),
        Action::WALK => Some(flags.walk),
        Action::WALL_JUMP_LEFT => Some(flags.wall_jump_left),
        Action::WALL_JUMP_RIGHT => Some(flags.wall_jump_right),
        Action::OTHER => None,
    }
}

/// A command as the controlling program writes it for one player.
pub struct Command {
    /// Tells one command from the next; a new id means a new command.
    pub id: String,
    /// The player (entry number plus one) the command is meant for.
    pub player_id: u32,
    pub action: Action,
    /// The main stick's horizontal position, as the bits of an IEEE-754 single.
    pub stick_x: u32,
    /// The main stick's vertical position, as the bits of an IEEE-754 single.
    pub stick_y: u32,
}

impl Default for Command {
    /// No command: empty id, player 0, no action, stick at rest.
    fn default() -> (c: Self)
        ensures
            c.id@ == Seq::<char>::empty(),
            c.player_id == 0,
            c.action == Action::OTHER,
            c.stick_x == 0,
            c.stick_y == 0,
    {
        Command { id: String::new(), player_id: 0, action: Action::OTHER, stick_x: 0, stick_y: 0 }
    }
}

impl Command {
    /// Begins fetching the command written for player `player_id`: the record
    /// `command_<id>.json`, guarded by the marker `command_<id>.ok.json`.
    pub fn get(player_id: u32) -> (res: (Fetch<Command>, FetchAction<Command>))
        ensures
            res.0.marker_path@ == entry_file("command"@, player_id as nat, true),
            res.0.record_path@ == entry_file("command"@, player_id as nat, false),
            res.0.stage is AwaitingMarker,
            res.1@ == FetchActionView::<Command>::CheckMarker(
                entry_file("command"@, player_id as nat, true),
            ),
    {
        Fetch::start(command_ok_path(player_id), command_path(player_id))
    }
}

/// Why no command flag came out.
#[derive(Clone, Copy, Debug, PartialEq, Eq, Structural)]
pub enum CommandError {
    /// The command could not be fetched.
    Fetch(FetchError),
    /// There is no new command with a flag for this player.
    NoCommand,
}

/// What to do with a fetched command: where to hold the main stick, if
/// anywhere, and the command flag to report.
pub struct CommandOutcome {
    /// The main stick position (bits of two singles) to set, if any.
    pub stick: Option<(u32, u32)>,
    pub flag: Result<i32, CommandError>,
}

/// The flag a new command reports.
pub open spec fn new_command_flag(action: Action, flags: Cat1Flags) -> Result<i32, CommandError> {
    match flag_of(action, flags) {
        Some(f) => Ok(f),
        None => Err(CommandError::NoCommand),
    }
}

/// What a fetched command does, given the command `last` that reported a
/// flag before: the outcome, and the command that counts as last afterwards.
/// A command for player `entry_id + 1` always sets the main stick; only one
/// with a new id reports a flag and becomes the last.
pub open spec fn decide(
    entry_id: int,
    fetched: Result<Command, FetchError>,
    last: Command,
    flags: Cat1Flags,
) -> (CommandOutcome, Command) {
    match fetched {
        Err(e) => (CommandOutcome { stick: None, flag: Err(CommandError::Fetch(e)) }, last),
        Ok(c) => if c.player_id != entry_id + 1 {
            (CommandOutcome { stick: None, flag: Err(CommandError::NoCommand) }, last)
        } else if c.id@ != last.id@ {
            (CommandOutcome { stick: Some((c.stick_x, c.stick_y)), flag: new_command_flag(c.action, flags) }, c)
        } else {
            (CommandOutcome { stick: Some((c.stick_x, c.stick_y)), flag: Err(CommandError::NoCommand) }, last)
        },
    }
}

/// Decides what the command fetched for entry `entry_id` (player
/// `entry_id + 1`) does, and updates `last` (see `decide`).
pub fn get_command_flag(
    entry_id: u32,
    fetched: Result<Command, FetchError>,
    last: &mut Command,
    flags: &Cat1Flags,
) -> (out: CommandOutcome)
    requires
        entry_id < u32::MAX,
    ensures
        (out, *final(last)) == decide(entry_id as int, fetched, *old(last), *flags),
        fetched matches Ok(c) ==> (c.player_id == entry_id + 1 ==> out.stick == Some((c.stick_x, c.stick_y))),
        fetched matches Ok(c) ==> (c.player_id == entry_id + 1 && c.id@ != old(last).id@ ==> {
            &&& *final(last) == c
            &&& forall|f: i32| flag_of(c.action, *flags) == Some(f) ==> out.flag == Ok::<i32, CommandError>(f)
            &&& flag_of(c.action, *flags) is None ==> out.flag == Err::<i32, CommandError>(CommandError::NoCommand)
        }),
{
    let player_id: u32 = entry_id + 1;
    let command = match fetched {
        Ok(c) => c,
        Err(e) => {
            return CommandOutcome { stick: None, flag: Err(CommandError::Fetch(e)) };
        },
    };
    if player_id != command.player_id {
        return CommandOutcome { stick: None, flag: Err(CommandError::NoCommand) };
    }
    let stick = Some((command.stick_x, command.stick_y));
    if command.id == last.id {
        return CommandOutcome { stick, flag: Err(CommandError::NoCommand) };
    }
    let action = command.action;
    *last = command;
    let flag = match action_flag(action, flags) {
        Some(f) => Ok(f),
        None => Err(CommandError::NoCommand),
    };
    CommandOutcome { stick, flag }
}

/// A command reports its flag once: fetched again after it has reported, it
/// reports nothing and changes nothing, though it still sets the stick.
pub proof fn lemma_command_reports_once(entry_id: int, c: Command, last: Command, flags: Cat1Flags)
    requires
        decide(entry_id, Ok(c), last, flags).0.flag is Ok,
    ensures
        ({
            let after = decide(entry_id, Ok(c), last, flags).1;
            let again = decide(entry_id, Ok(c), after, flags);
            &&& after == c
            &&& again.0.flag == Err::<i32, CommandError>(CommandError::NoCommand)
            &&& again.0.stick == Some((c.stick_x, c.stick_y))
            &&& again.1 == after
        }),
{
}

/// A command meant for another player, or a failed fetch, changes nothing
/// and moves no stick.
pub proof fn lemma_command_for_other_ignored(
    entry_id: int,
    fetched: Result<Command, FetchError>,
    last: Command,
    flags: Cat1Flags,
)
    requires
        fetched is Err || fetched->Ok_0.player_id != entry_id + 1,
    ensures
        decide(entry_id, fetched, last, flags).0.stick is None,
        decide(entry_id, fetched, last, flags).0.flag is Err,
        decide(entry_id, fetched, last, flags).1 == last,
{
}

/// A flag is reported only for a new command of the player, and it is the
/// flag of the command's action.
pub proof fn lemma_flag_comes_from_new_command(
    entry_id: int,
    fetched: Result<Command, FetchError>,
    last: Command,
    flags: Cat1Flags,
    flag: i32,
)
    requires
        decide(entry_id, fetched, last, flags).0.flag == Ok::<i32, CommandError>(flag),
    ensures
        fetched is Ok,
        fetched->Ok_0.player_id == entry_id + 1,
        fetched->Ok_0.id@ != last.id@,
        flag_of(fetched->Ok_0.action, flags) == Some(flag),
{
}

/// Every action but `OTHER` stands for its own entry of the flag table, and
/// `OTHER` for none.
pub proof fn lemma_flag_table(flags: Cat1Flags)
    ensures
        flag_of(Action::AIR_ESCAPE, flags) == Some(flags.air_escape),
        flag_of(Action::ATTACK_HI3, flags) == Some(flags.attack_hi3),
        flag_of(Action::ATTACK_HI4, flags) == Some(flags.attack_hi4),
        flag_of(Action::ATTACK_LW3, flags) == Some(flags.attack_lw3),
        flag_of(Action::ATTACK_LW4, flags) == Some(flags.attack_lw4),
        flag_of(Action::ATTACK_N, flags) == Some(flags.attack_n),
        flag_of(Action::ATTACK_S3, flags) == Some(flags.attack_s3),
        flag_of(Action::ATTACK_S4, flags) == Some(flags.attack_s4),
        flag_of(Action::CATCH, flags) == Some(flags.catch),
        flag_of(Action::DASH, flags) == Some(flags.dash),
        flag_of(Action::ESCAPE, flags) == Some(flags.escape),
        flag_of(Action::ESCAPE_B, flags) == Some(flags.escape_b),
        flag_of(Action::ESCAPE_F, flags) == Some(flags.escape_f),
        flag_of(Action::JUMP, flags) == Some(flags.jump),
        flag_of(Action::JUMP_BUTTON, flags) == Some(flags.jump_button),
        flag_of(Action::SPECIAL_ANY, flags) == Some(flags.special_any),
        flag_of(Action::SPECIAL_HI, flags) == Some(flags.special_hi),
        flag_of(Action::SPECIAL_LW, flags) == Some(flags.special_lw),
        flag_of(Action::SPECIAL_N, flags) == Some(flags.special_n),
        flag_of(Action::SPECIAL_S, flags) == Some(flags.special_s),
        flag_of(Action::TURN, flags) == Some(flags.turn),
        flag_of(Action::TURN_DASH, flags) == Some(flags.turn_dash),
        flag_of(Action::WALK, flags) == Some(flags.walk),
        flag_of(Action::WALL_JUMP_LEFT, flags) == Some(flags.wall_jump_left),
        flag_of(Action::WALL_JUMP_RIGHT, flags) == Some(flags.wall_jump_right),
        flag_of(Action::OTHER, flags) is None,
        forall|a: Action| a != Action::OTHER ==> flag_of(a, flags) is Some,
{
}

/// A command for the player always puts the main stick where that command
/// says, whatever command reported before.
pub proof fn lemma_command_sets_its_stick(entry_id: int, c: Command, last: Command, flags: Cat1Flags)
    requires
        c.player_id == entry_id + 1,
    ensures
        decide(entry_id, Ok(c), last, flags).0.stick == Some((c.stick_x, c.stick_y)),
{
}

/// A command for the player with an id other than the last one's is new,
/// whatever its action and stick: it becomes the last command and reports the
/// flag of its action, if its action has one.
pub proof fn lemma_new_command_reports_its_flag(
    entry_id: int,
    c: Command,
    last: Command,
    flags: Cat1Flags,
)
    requires
        c.player_id == entry_id + 1,
        c.id@ != last.id@,
    ensures
        decide(entry_id, Ok(c), last, flags).1 == c,
        forall|f: i32| flag_of(c.action, flags) == Some(f) ==> decide(entry_id, Ok(c), last, flags).0.flag
            == Ok::<i32, CommandError>(f),
        c.action != Action::OTHER ==> decide(entry_id, Ok(c), last, flags).0.flag is Ok,
        flag_of(c.action, flags) is None ==> decide(entry_id, Ok(c), last, flags).0.flag
            == Err::<i32, CommandError>(CommandError::NoCommand),
{
    lemma_flag_table(flags);
}

} // verus!
