use vstd::prelude::*;

verus! {

/// Highest floor of the dungeon. A validated attempt that would carry a
/// player past this floor ends the session instead.
pub const MAX_FLOOR: u32 = 10;

/// An opaque participant identity. The host environment proves control of an
/// identity before a call reaches the engine; the engine itself only ever
/// compares identities for equality, so a plain number is enough to stand for
/// one.
#[derive(Clone, Copy, PartialEq, Eq, Structural, Debug)]
pub struct Ident(pub u64);

/// An opaque 32-byte commitment value. The engine never inspects the bytes;
/// it only records whether a player has committed.
#[derive(Clone, Copy, PartialEq, Eq, Debug)]
pub struct Commitment(pub [u8; 32]);

/// Lifecycle of a session: only ever moves forward,
/// `Waiting -> Active -> Finished`.
#[derive(Clone, Copy, PartialEq, Eq, Structural, Debug)]
pub enum Status {
    Waiting,
    Active,
    Finished,
}

/// Every way an engine call can be refused. A refused call leaves the
/// session record untouched.
#[derive(Clone, Copy, PartialEq, Eq, Structural, Debug)]
pub enum Error {
    LobbyNotFound,
    LobbyInactive,
    AlreadyJoined,
    AlreadyCommitted,
    NotPlayer,
    WrongFloor,
    BadNonce,
    NotWaiting,
    GameFinished,
    MissingCommit,
}

/// Per-participant progress within one session.
#[derive(Clone, Copy, PartialEq, Eq, Debug)]
pub struct PlayerState {
    /// Set at most once per player; required before any attempt.
    pub commit: Option<Commitment>,
    /// Current floor: 0 while waiting, 1 on activation, then advanced only
    /// by validated attempts.
    pub floor: u32,
    /// Highest attempt sequence number accepted for this player.
    pub last_nonce: u32,
    /// This player individually cleared gate floor 1.
    pub cleared_gate1: bool,
    /// This player individually cleared gate floor 5.
    pub cleared_gate5: bool,
}

/// One session record: the whole state the engine reads and writes.
#[derive(Clone, Copy, PartialEq, Eq, Debug)]
pub struct Lobby {
    pub status: Status,
    /// The creator; fixed at creation.
    pub player1: Ident,
    /// The joining participant; set at most once, never cleared.
    pub player2: Option<Ident>,
    pub p1: PlayerState,
    pub p2: PlayerState,
    /// Set exactly once, in the call that finishes the session.
    pub winner: Option<Ident>,
}

/// A player slot before the session has seen any of that player's moves.
pub open spec fn fresh_player_state() -> PlayerState {
    PlayerState {
        commit: None,
        floor: 0,
        last_nonce: 0,
        cleared_gate1: false,
        cleared_gate5: false,
    }
}

/// The record a newly created lobby holds.
pub open spec fn fresh_lobby(player1: Ident) -> Lobby {
    Lobby {
        status: Status::Waiting,
        player1,
        player2: None,
        p1: fresh_player_state(),
        p2: fresh_player_state(),
        winner: None,
    }
}

/// Both players are present and both have committed: the condition under
/// which a waiting session activates.
pub open spec fn ready_to_activate(l: Lobby) -> bool {
    l.player2 is Some && l.p1.commit is Some && l.p2.commit is Some
}

/// The two synchronization floors: neither player advances past one until
/// both have individually cleared it.
pub open spec fn is_gate_floor(floor: u32) -> bool {
    floor == 1 || floor == 5
}

/// Gate coupling between the two players' progress. Release past a gate
/// happens for both players in one call, so being past a gate is a shared
/// fact: either player is past gate 1 exactly when both are, and exactly
/// when both individual clear flags are set; likewise for gate 5.
pub open spec fn gates_wf(p1: PlayerState, p2: PlayerState) -> bool {
    &&& ((p1.cleared_gate1 && p2.cleared_gate1) <==> p1.floor >= 2)
    &&& (p1.floor >= 2 <==> p2.floor >= 2)
    &&& ((p1.cleared_gate5 && p2.cleared_gate5) <==> p1.floor >= 6)
    &&& (p1.floor >= 6 <==> p2.floor >= 6)
    &&& (p1.cleared_gate1 ==> p1.floor >= 1)
    &&& (p2.cleared_gate1 ==> p2.floor >= 1)
    &&& (p1.cleared_gate5 ==> p1.floor >= 5)
    &&& (p2.cleared_gate5 ==> p2.floor >= 5)
}

/// A player slot that has seen no moves yet: the shape both slots keep for
/// as long as the session is waiting.
pub open spec fn waiting_player_wf(p: PlayerState) -> bool {
    &&& p.floor == 0
    &&& p.last_nonce == 0
    &&& !p.cleared_gate1
    &&& !p.cleared_gate5
}

/// Well-formedness of a session record: everything a successful engine call
/// preserves. Creation establishes it; every contract of the engine keeps it.
pub open spec fn lobby_wf(l: Lobby) -> bool {
    &&& l.player2 != Some(l.player1)
    &&& match l.status {
        Status::Waiting => {
            &&& waiting_player_wf(l.p1)
            &&& waiting_player_wf(l.p2)
            &&& l.winner is None
            &&& (l.player2 is None ==> l.p2.commit is None)
            &&& !ready_to_activate(l)
        },
        Status::Active => {
            &&& ready_to_activate(l)
            &&& l.winner is None
            &&& 1 <= l.p1.floor <= MAX_FLOOR
            &&& 1 <= l.p2.floor <= MAX_FLOOR
            &&& gates_wf(l.p1, l.p2)
        },
        Status::Finished => {
            &&& ready_to_activate(l)
            &&& (l.winner == Some(l.player1) || l.winner == l.player2)
            &&& l.winner is Some
            &&& (if l.winner == Some(l.player1) {
                &&& l.p1.floor == MAX_FLOOR + 1
                &&& 1 <= l.p2.floor <= MAX_FLOOR
            } else {
                &&& l.p2.floor == MAX_FLOOR + 1
                &&& 1 <= l.p1.floor <= MAX_FLOOR
            })
            &&& gates_wf(l.p1, l.p2)
        },
    }
}

} // verus!
