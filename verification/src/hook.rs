//! Decisions of the game hooks: which command flag the hooked lookup
//! reports, and when the hooks are installed.
use vstd::prelude::*;
use crate::command::CommandError;

verus! {

/// Where one hooked command-flag lookup stands.
#[derive(Clone, Copy, Debug, PartialEq, Eq, Structural)]
pub enum HookStage {
    AwaitingOriginal,
    AwaitingSave,
    AwaitingCommand,
    AwaitingFallback,
    Done,
}

/// What the hook is to do next.
#[derive(Clone, Copy, Debug, PartialEq, Eq, Structural)]
pub enum HookAction {
    /// Run the game's own lookup.
    CallOriginal,
    /// Record and write out the fighter's state.
    SaveGameState,
    /// Fetch the player's command and decide its flag.
    ResolveCommand,
    /// Report this flag to the game.
    Return(i32),
}

/// What came of the hook's last action.
#[derive(Clone, Copy, Debug)]
pub enum HookEvent {
    Original(i32),
    GameStateSaved,
    CommandResolved(Result<i32, CommandError>),
}

/// One hooked lookup of the command flags of `category`; the lookup of
/// `frame_category` happens once per frame and is the one that is steered.
#[derive(Clone, Copy, Debug, PartialEq, Eq, Structural)]
pub struct FlagHook {
    pub category: i32,
    pub frame_category: i32,
    pub stage: HookStage,
}

/// The event that the stage waits for.
pub open spec fn hook_accepts(stage: HookStage, event: HookEvent) -> bool {
    match (stage, event) {
        (HookStage::AwaitingOriginal, HookEvent::Original(_)) => true,
        (HookStage::AwaitingSave, HookEvent::GameStateSaved) => true,
        (HookStage::AwaitingCommand, HookEvent::CommandResolved(_)) => true,
        (HookStage::AwaitingFallback, HookEvent::Original(_)) => true,
        _ => false,
    }
}

/// The stage and the action after an accepted event.
pub open spec fn hook_next(hook: FlagHook, event: HookEvent) -> (HookStage, HookAction) {
    match event {
        HookEvent::Original(flag) => if hook.stage == HookStage::AwaitingOriginal
            && hook.category == hook.frame_category {
            (HookStage::AwaitingSave, HookAction::SaveGameState)
        } else {
            (HookStage::Done, HookAction::Return(flag))
        },
        HookEvent::GameStateSaved => (HookStage::AwaitingCommand, HookAction::ResolveCommand),
        HookEvent::CommandResolved(resolved) => match resolved {
            Ok(flag) => (HookStage::Done, HookAction::Return(flag)),
            Err(_) => (HookStage::AwaitingFallback, HookAction::CallOriginal),
        },
    }
}

/// The flag the hook reports: the game's own for any other category; for the
/// steered one, the command's flag, or the game's own (asked again) when the
/// command gives none.
pub open spec fn hooked_flag(
    category: i32,
    frame_category: i32,
    first: i32,
    resolved: Result<i32, CommandError>,
    second: i32,
) -> i32 {
    if category != frame_category {
        first
    } else {
        match resolved {
            Ok(flag) => flag,
            Err(_) => second,
        }
    }
}

impl FlagHook {
    /// Begins a lookup of `category`: the game's own lookup runs first.
    pub fn start(category: i32, frame_category: i32) -> (res: (FlagHook, HookAction))
        ensures
            res.0 == (FlagHook { category, frame_category, stage: HookStage::AwaitingOriginal }),
            res.1 == HookAction::CallOriginal,
    {
        (FlagHook { category, frame_category, stage: HookStage::AwaitingOriginal }, HookAction::CallOriginal)
    }

    /// Whether `event` is the answer that the hook waits for.
    pub fn accepts(&self, event: HookEvent) -> (b: bool)
        ensures
            b == hook_accepts(self.stage, event),
    {
        match (self.stage, event) {
            (HookStage::AwaitingOriginal, HookEvent::Original(_)) => true,
            (HookStage::AwaitingSave, HookEvent::GameStateSaved) => true,
            (HookStage::AwaitingCommand, HookEvent::CommandResolved(_)) => true,
            (HookStage::AwaitingFallback, HookEvent::Original(_)) => true,
            _ => false,
        }
    }

    /// Takes the answer to the last action and gives the next action.
    pub fn step(&mut self, event: HookEvent) -> (action: HookAction)
        requires
            hook_accepts(old(self).stage, event),
        ensures
            final(self).category == old(self).category,
            final(self).frame_category == old(self).frame_category,
            (final(self).stage, action) == hook_next(*old(self), event),
            event matches HookEvent::Original(f) ==> (old(self).stage == HookStage::AwaitingOriginal
                && old(self).category == old(self).frame_category ==> action == HookAction::SaveGameState),
            event matches HookEvent::Original(f) ==> (old(self).stage == HookStage::AwaitingFallback
                || old(self).category != old(self).frame_category ==> action == HookAction::Return(f)),
            event matches HookEvent::GameStateSaved ==> action == HookAction::ResolveCommand,
            event matches HookEvent::CommandResolved(Ok(f)) ==> action == HookAction::Return(f),
            event matches HookEvent::CommandResolved(Err(_)) ==> action == HookAction::CallOriginal,
    {
        match event {
            HookEvent::Original(flag) => {
                if self.stage == HookStage::AwaitingOriginal && self.category == self.frame_category {
                    self.stage = HookStage::AwaitingSave;
                    HookAction::SaveGameState
                } else {
                    self.stage = HookStage::Done;
                    HookAction::Return(flag)
                }
            },
            HookEvent::GameStateSaved => {
                self.stage = HookStage::AwaitingCommand;
                HookAction::ResolveCommand
            },
            HookEvent::CommandResolved(resolved) => match resolved {
                Ok(flag) => {
                    self.stage = HookStage::Done;
                    HookAction::Return(flag)
                },
                Err(_) => {
                    self.stage = HookStage::AwaitingFallback;
                    HookAction::CallOriginal
                },
            },
        }
    }
}

/// A whole lookup: for another category the game's flag is reported at once
/// and nothing is saved; for the steered category the fighter's state is
/// saved, then the command decides, and the game is asked again only when
/// the command gives no flag. The reported flag is `hooked_flag`.
pub proof fn lemma_hook_run(
    category: i32,
    frame_category: i32,
    first: i32,
    resolved: Result<i32, CommandError>,
    second: i32,
)
    ensures
        ({
            let h0 = FlagHook { category, frame_category, stage: HookStage::AwaitingOriginal };
            let (s1, a1) = hook_next(h0, HookEvent::Original(first));
            let h1 = FlagHook { stage: s1, ..h0 };
            if category != frame_category {
                s1 == HookStage::Done && a1 == HookAction::Return(
                    hooked_flag(category, frame_category, first, resolved, second),
                )
            } else {
                let (s2, a2) = hook_next(h1, HookEvent::GameStateSaved);
                let h2 = FlagHook { stage: s2, ..h0 };
                let (s3, a3) = hook_next(h2, HookEvent::CommandResolved(resolved));
                let h3 = FlagHook { stage: s3, ..h0 };
                &&& a1 == HookAction::SaveGameState
                &&& hook_accepts(s1, HookEvent::GameStateSaved)
                &&& a2 == HookAction::ResolveCommand
                &&& hook_accepts(s2, HookEvent::CommandResolved(resolved))
                &&& match resolved {
                    Ok(_) => s3 == HookStage::Done && a3 == HookAction::Return(
                        hooked_flag(category, frame_category, first, resolved, second),
                    ),
                    Err(_) => {
                        let (s4, a4) = hook_next(h3, HookEvent::Original(second));
                        &&& a3 == HookAction::CallOriginal
                        &&& hook_accepts(s3, HookEvent::Original(second))
                        &&& s4 == HookStage::Done
                        &&& a4 == HookAction::Return(
                            hooked_flag(category, frame_category, first, resolved, second),
                        )
                    },
                }
            }
        }),
{
}

/// Whether the hooks are to be installed when the module `name` is loaded:
/// only for the module "common", and only when it was not loaded before.
pub fn nro_wants_hooks(already_loaded: bool, name: &str) -> (b: bool)
    ensures
        b == (!already_loaded && name@ == "common"@),
{
    if already_loaded {
        return false;
    }
    let given = String::from_str(name);
    let common = String::from_str("common");
    given == common
}

} // verus!
