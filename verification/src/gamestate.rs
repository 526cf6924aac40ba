//! The table of player states that is written out once per frame.
//!
//! Real-valued readings (positions, facing, damage, stick) are carried as the
//! bits of the IEEE-754 singles the game reports; nothing here computes with
//! them.
use vstd::prelude::*;

verus! {

/// Where a fighter stands, as the bits of two singles.
#[derive(Clone, Copy, Debug, PartialEq, Eq, Structural)]
pub struct Position {
    pub x: u32,
    pub y: u32,
}

/// What a fighter's controller reports: the main stick (bits of two singles)
/// and which buttons are down.
#[derive(Clone, Copy, Debug, PartialEq, Eq, Structural)]
pub struct ControlState {
    pub stick_x: u32,
    pub stick_y: u32,
    pub button_attack: bool,
    pub button_special: bool,
    pub button_smash: bool,
    pub button_guard: bool,
    pub button_guard_hold: bool,
    pub button_catch: bool,
    pub button_jump: bool,
    pub button_jump_mini: bool,
    pub button_invalid: bool,
}

/// One fighter's state in one frame.
#[derive(Clone, Copy, Debug, PartialEq, Eq, Structural)]
pub struct PlayerState {
    /// The fighter's entry number; the table holds one state per entry.
    pub id: i32,
    pub fighter_kind: i32,
    pub fighter_status_kind: i32,
    pub situation_kind: i32,
    /// Facing (left or right), as the bits of a single.
    pub lr: u32,
    /// Damage percent, as the bits of a single.
    pub percent: u32,
    pub position: Position,
    pub control_state: ControlState,
    pub is_cpu: bool,
    pub is_dead: bool,
}

impl PlayerState {
    /// Assembles the state of the fighter with entry number `entry_id` from
    /// the game's readings. It is dead when its status is `dead_status_kind`,
    /// and computer-controlled when its entry number is `cpu_entry_id`.
    pub fn observe(
        entry_id: i32,
        fighter_kind: i32,
        fighter_status_kind: i32,
        situation_kind: i32,
        lr: u32,
        percent: u32,
        position: Position,
        control_state: ControlState,
        dead_status_kind: i32,
        cpu_entry_id: i32,
    ) -> (ps: PlayerState)
        ensures
            ps == (PlayerState {
                id: entry_id,
                fighter_kind,
                fighter_status_kind,
                situation_kind,
                lr,
                percent,
                position,
                control_state,
                is_cpu: entry_id == cpu_entry_id,
                is_dead: fighter_status_kind == dead_status_kind,
            }),
    {
        PlayerState {
            id: entry_id,
            fighter_kind,
            fighter_status_kind,
            situation_kind,
            lr,
            percent,
            position,
            control_state,
            is_cpu: entry_id == cpu_entry_id,
            is_dead: fighter_status_kind == dead_status_kind,
        }
    }
}

/// The first position in `s` of a state with entry number `id`, or -1.
pub open spec fn index_of_id(s: Seq<PlayerState>, id: i32) -> int
    decreases s.len(),
{
    if s.len() == 0 {
        -1
    } else if s[0].id == id {
        0
    } else {
        let r: int = index_of_id(s.subrange(1, s.len() as int), id);
        if r < 0 {
            -1
        } else {
            r + 1
        }
    }
}

/// `s` with `p` recorded: it takes the place of the first state with its
/// entry number, or is added at the end when there is none.
pub open spec fn upserted(s: Seq<PlayerState>, p: PlayerState) -> Seq<PlayerState> {
    let i: int = index_of_id(s, p.id);
    if i < 0 {
        s.push(p)
    } else {
        s.update(i, p)
    }
}

/// No two states in `s` share an entry number.
pub open spec fn unique_ids(s: Seq<PlayerState>) -> bool {
    forall|i: int, j: int| 0 <= i < j < s.len() ==> s[i].id != s[j].id
}

/// The game state written out each frame.
pub struct GameState {
    pub players: Vec<PlayerState>,
}

impl Default for GameState {
    /// The state before any frame: no players.
    fn default() -> (g: Self)
        ensures
            g.players@ == Seq::<PlayerState>::empty(),
    {
        GameState { players: Vec::new() }
    }
}

impl GameState {
    /// Records the state of one player for this frame: it replaces the first
    /// state with the same entry number, or is appended.
    pub fn upsert_player(&mut self, player: PlayerState)
        ensures
            final(self).players@ == upserted(old(self).players@, player),
            (forall|j: int| 0 <= j < old(self).players@.len() ==> old(self).players@[j].id != player.id)
                ==> final(self).players@ == old(self).players@.push(player),
            forall|k: int|
                0 <= k < old(self).players@.len() && old(self).players@[k].id == player.id && (forall|j: int|
                    0 <= j < k ==> old(self).players@[j].id != player.id) ==> final(self).players@
                    == old(self).players@.update(k, player),
    {
        let n: usize = self.players.len();
        let mut i: usize = 0;
        while i < n
            invariant
                n == self.players.len(),
                self.players@ == old(self).players@,
                i <= n,
                forall|j: int| 0 <= j < i ==> self.players@[j].id != player.id,
            decreases n - i,
        {
            if self.players[i].id == player.id {
                proof {
                    lemma_index_of_id(self.players@, player.id);
                }
                self.players.set(i, player);
                proof {
                    assert forall|k: int|
                        0 <= k < old(self).players@.len() && old(self).players@[k].id == player.id
                            && (forall|j: int| 0 <= j < k ==> old(self).players@[j].id != player.id)
                        implies k == i by {
                        lemma_index_of_id_at(old(self).players@, player.id, k);
                    }
                }
                return;
            }
            i = i + 1;
        }
        proof {
            lemma_index_of_id(self.players@, player.id);
        }
        self.players.push(player);
    }
}

/// `index_of_id` finds the first state with the entry number, or reports
/// that there is none.
pub proof fn lemma_index_of_id(s: Seq<PlayerState>, id: i32)
    ensures
        -1 <= index_of_id(s, id) < s.len(),
        index_of_id(s, id) >= 0 ==> s[index_of_id(s, id)].id == id,
        forall|j: int| 0 <= j < index_of_id(s, id) ==> s[j].id != id,
        index_of_id(s, id) < 0 ==> forall|j: int| 0 <= j < s.len() ==> s[j].id != id,
    decreases s.len(),
{
    if s.len() > 0 && s[0].id != id {
        let t = s.subrange(1, s.len() as int);
        lemma_index_of_id(t, id);
        assert forall|j: int| 0 < j < s.len() implies s[j] == t[j - 1] by {}
        if index_of_id(t, id) < 0 {
            assert forall|j: int| 0 <= j < s.len() implies s[j].id != id by {
                if j > 0 {
                    assert(t[j - 1].id != id);
                }
            }
        } else {
            assert forall|j: int| 0 <= j < index_of_id(s, id) implies s[j].id != id by {
                if j > 0 {
                    assert(t[j - 1].id != id);
                }
            }
        }
    }
}

/// The first state with entry number `id` sits at `k`.
pub proof fn lemma_index_of_id_at(s: Seq<PlayerState>, id: i32, k: int)
    requires
        0 <= k < s.len(),
        s[k].id == id,
        forall|j: int| 0 <= j < k ==> s[j].id != id,
    ensures
        index_of_id(s, id) == k,
{
    lemma_index_of_id(s, id);
}

/// No state has entry number `id`.
pub proof fn lemma_index_of_id_absent(s: Seq<PlayerState>, id: i32)
    requires
        forall|j: int| 0 <= j < s.len() ==> s[j].id != id,
    ensures
        index_of_id(s, id) == -1,
{
    lemma_index_of_id(s, id);
}

/// After a player is recorded, looking up its entry number finds exactly the
/// state recorded.
pub proof fn lemma_upsert_then_find(s: Seq<PlayerState>, p: PlayerState)
    ensures
        0 <= index_of_id(upserted(s, p), p.id) < upserted(s, p).len(),
        upserted(s, p)[index_of_id(upserted(s, p), p.id)] == p,
{
    lemma_index_of_id(s, p.id);
    let t = upserted(s, p);
    let i: int = index_of_id(s, p.id);
    if i < 0 {
        lemma_index_of_id_at(t, p.id, s.len() as int);
    } else {
        lemma_index_of_id_at(t, p.id, i);
    }
}

/// Recording a player leaves every other entry's state where and as it was.
pub proof fn lemma_upsert_keeps_others(s: Seq<PlayerState>, p: PlayerState, id: i32)
    requires
        id != p.id,
    ensures
        index_of_id(upserted(s, p), id) == index_of_id(s, id),
        index_of_id(s, id) >= 0 ==> upserted(s, p)[index_of_id(s, id)] == s[index_of_id(s, id)],
{
    lemma_index_of_id(s, id);
    lemma_index_of_id(s, p.id);
    let t = upserted(s, p);
    let k: int = index_of_id(s, id);
    if k >= 0 {
        lemma_index_of_id_at(t, id, k);
    } else {
        lemma_index_of_id_absent(t, id);
    }
}

/// Recording the same state twice is recording it once.
pub proof fn lemma_upsert_idempotent(s: Seq<PlayerState>, p: PlayerState)
    ensures
        upserted(upserted(s, p), p) == upserted(s, p),
{
    lemma_upsert_then_find(s, p);
    let t = upserted(s, p);
    let i: int = index_of_id(t, p.id);
    assert(t.update(i, p) =~= t);
}

/// Recording a player adds a state exactly when its entry number was absent,
/// and otherwise keeps the number of states.
pub proof fn lemma_upsert_len(s: Seq<PlayerState>, p: PlayerState)
    ensures
        upserted(s, p).len() == s.len() + (if index_of_id(s, p.id) < 0 { 1int } else { 0int }),
{
    lemma_index_of_id(s, p.id);
}

/// Recording a player keeps entry numbers unique.
pub proof fn lemma_upsert_keeps_unique(s: Seq<PlayerState>, p: PlayerState)
    requires
        unique_ids(s),
    ensures
        unique_ids(upserted(s, p)),
{
    lemma_index_of_id(s, p.id);
    let t = upserted(s, p);
    let i: int = index_of_id(s, p.id);
    if i < 0 {
        assert forall|a: int, b: int| 0 <= a < b < t.len() implies t[a].id != t[b].id by {
            if b == s.len() {
                assert(s[a].id != p.id);
            }
        }
    } else {
        assert forall|a: int, b: int| 0 <= a < b < t.len() implies t[a].id != t[b].id by {
            if a == i {
                assert(s[i].id == s[b].id || s[i].id != s[b].id);
            } else if b == i {
                assert(s[a].id != s[i].id);
            }
        }
    }
}

} // verus!
