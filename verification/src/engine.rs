use vstd::prelude::*;

use crate::model::{
    fresh_lobby, lobby_wf, ready_to_activate, Commitment, Error, Ident, Lobby, PlayerState,
    Status, MAX_FLOOR,
};

verus! {

/// Which slot an identity occupies in a session: `Some(true)` for the
/// creator's slot, `Some(false)` for the joiner's, `None` for a stranger.
/// The creator's slot takes precedence, as the engine always checks it first.
pub open spec fn player_slot(l: Lobby, player: Ident) -> Option<bool> {
    if player == l.player1 {
        Some(true)
    } else if l.player2 == Some(player) {
        Some(false)
    } else {
        None
    }
}

/// The calling player's own slot state.
pub open spec fn self_of(l: Lobby, is_p1: bool) -> PlayerState {
    if is_p1 {
        l.p1
    } else {
        l.p2
    }
}

/// The partner's slot state.
pub open spec fn other_of(l: Lobby, is_p1: bool) -> PlayerState {
    if is_p1 {
        l.p2
    } else {
        l.p1
    }
}

/// The record with the calling player's slot and the partner's slot written
/// back in the right order.
pub open spec fn put_slots(l: Lobby, is_p1: bool, me: PlayerState, other: PlayerState) -> Lobby {
    if is_p1 {
        Lobby { p1: me, p2: other, ..l }
    } else {
        Lobby { p1: other, p2: me, ..l }
    }
}

/// What joining does to a waiting session record.
pub open spec fn join_step(l: Lobby, player2: Ident) -> Result<Lobby, Error> {
    if l.status != Status::Waiting {
        Err(Error::NotWaiting)
    } else if l.player2 is Some {
        Err(Error::AlreadyJoined)
    } else if player2 == l.player1 {
        Err(Error::AlreadyJoined)
    } else {
        Ok(Lobby { player2: Some(player2), ..l })
    }
}

/// Activation: the session leaves `Waiting` and both players step onto
/// floor 1 in the same transition, exactly when both players are present
/// and both have committed.
pub open spec fn activate_if_ready(l: Lobby) -> Lobby {
    if ready_to_activate(l) {
        Lobby {
            status: Status::Active,
            p1: PlayerState { floor: 1, ..l.p1 },
            p2: PlayerState { floor: 1, ..l.p2 },
            ..l
        }
    } else {
        l
    }
}

/// What storing a commitment does to a waiting session record.
pub open spec fn commit_step(l: Lobby, player: Ident, commit: Commitment) -> Result<Lobby, Error> {
    if l.status != Status::Waiting {
        Err(Error::NotWaiting)
    } else {
        match player_slot(l, player) {
            None => Err(Error::NotPlayer),
            Some(is_p1) => {
                if self_of(l, is_p1).commit is Some {
                    Err(Error::AlreadyCommitted)
                } else {
                    let me = PlayerState { commit: Some(commit), ..self_of(l, is_p1) };
                    Ok(activate_if_ready(put_slots(l, is_p1, me, other_of(l, is_p1))))
                }
            },
        }
    }
}

/// The state written by an attempt that passed every check. The nonce is
/// consumed whatever the outcome; a correct attempt advances the floor,
/// except at a gate floor, where it first records the individual clear and
/// advances both players only once both have cleared; an advance past the
/// top floor finishes the session and names the caller winner.
pub open spec fn apply_attempt(
    l: Lobby,
    player: Ident,
    is_p1: bool,
    floor: u32,
    attempt_nonce: u32,
    is_correct: bool,
) -> Lobby {
    let me0 = self_of(l, is_p1);
    let other0 = other_of(l, is_p1);
    let me1 = PlayerState { last_nonce: attempt_nonce, ..me0 };
    if !is_correct {
        put_slots(l, is_p1, me1, other0)
    } else {
        let next = ((floor + 1) as u32);
        let advanced = if floor == 1 {
            if other0.cleared_gate1 {
                put_slots(
                    l,
                    is_p1,
                    PlayerState { cleared_gate1: true, floor: next, ..me1 },
                    PlayerState { floor: next, ..other0 },
                )
            } else {
                put_slots(l, is_p1, PlayerState { cleared_gate1: true, ..me1 }, other0)
            }
        } else if floor == 5 {
            if other0.cleared_gate5 {
                put_slots(
                    l,
                    is_p1,
                    PlayerState { cleared_gate5: true, floor: next, ..me1 },
                    PlayerState { floor: next, ..other0 },
                )
            } else {
                put_slots(l, is_p1, PlayerState { cleared_gate5: true, ..me1 }, other0)
            }
        } else {
            put_slots(l, is_p1, PlayerState { floor: next, ..me1 }, other0)
        };
        if next > MAX_FLOOR {
            Lobby { status: Status::Finished, winner: Some(player), ..advanced }
        } else {
            advanced
        }
    }
}

/// What an attempt does to an active session record: the checks, in the
/// order the engine makes them, each refusing with its own error, and the
/// update applied only when every check passes.
pub open spec fn attempt_step(
    l: Lobby,
    player: Ident,
    floor: u32,
    attempt_nonce: u32,
    is_correct: bool,
) -> Result<Lobby, Error> {
    if l.status != Status::Active {
        Err(Error::LobbyInactive)
    } else if l.winner is Some {
        Err(Error::GameFinished)
    } else {
        match player_slot(l, player) {
            None => Err(Error::NotPlayer),
            Some(is_p1) => {
                let me = self_of(l, is_p1);
                if me.commit is None {
                    Err(Error::MissingCommit)
                } else if me.floor != floor {
                    Err(Error::WrongFloor)
                } else if attempt_nonce != me.last_nonce + 1 {
                    Err(Error::BadNonce)
                } else {
                    Ok(apply_attempt(l, player, is_p1, floor, attempt_nonce, is_correct))
                }
            },
        }
    }
}

/// `join_step` lifted to the looked-up record: a missing session is its own
/// failure.
pub open spec fn join_call(stored: Option<Lobby>, player2: Ident) -> Result<Lobby, Error> {
    match stored {
        None => Err(Error::LobbyNotFound),
        Some(l) => join_step(l, player2),
    }
}

/// `commit_step` lifted to the looked-up record.
pub open spec fn commit_call(
    stored: Option<Lobby>,
    player: Ident,
    commit: Commitment,
) -> Result<Lobby, Error> {
    match stored {
        None => Err(Error::LobbyNotFound),
        Some(l) => commit_step(l, player, commit),
    }
}

/// `attempt_step` lifted to the looked-up record.
pub open spec fn attempt_call(
    stored: Option<Lobby>,
    player: Ident,
    floor: u32,
    attempt_nonce: u32,
    is_correct: bool,
) -> Result<Lobby, Error> {
    match stored {
        None => Err(Error::LobbyNotFound),
        Some(l) => attempt_step(l, player, floor, attempt_nonce, is_correct),
    }
}

/// The session engine. It owns no storage of its own: each operation takes
/// the looked-up record and returns either the record to write back or the
/// error to surface, leaving the stored state untouched on every failure.
/// The host shell is expected to authorize the acting identity before the
/// call and to deliver the start and end notifications the resulting record
/// calls for.
pub struct TheFarm;

impl TheFarm {
    /// Open a lobby: a fresh waiting session for the creator, keyed by an
    /// identifier derived from the host's monotonic ledger counter.
    pub fn create_lobby(ledger_seq: u32, player1: Ident) -> (r: (u32, Lobby))
        ensures
            r.0 == ledger_seq,
            r.1 == fresh_lobby(player1),
            lobby_wf(r.1),
    {
        let lobby = Lobby {
            status: Status::Waiting,
            player1,
            player2: None,
            p1: PlayerState {
                commit: None,
                floor: 0,
                last_nonce: 0,
                cleared_gate1: false,
                cleared_gate5: false,
            },
            p2: PlayerState {
                commit: None,
                floor: 0,
                last_nonce: 0,
                cleared_gate1: false,
                cleared_gate5: false,
            },
            winner: None,
        };
        (ledger_seq, lobby)
    }

    /// Fill the second seat of a waiting session. Refused when the session
    /// is missing, no longer waiting, already has a second player, or the
    /// joiner is the creator.
    pub fn join_lobby(stored: Option<Lobby>, player2: Ident) -> (r: Result<Lobby, Error>)
        ensures
            r == join_call(stored, player2),
    {
        let mut lobby = match stored {
            Some(l) => l,
            None => {
                return Err(Error::LobbyNotFound);
            },
        };
        if lobby.status != Status::Waiting {
            return Err(Error::NotWaiting);
        }
        if lobby.player2.is_some() {
            return Err(Error::AlreadyJoined);
        }
        if player2 == lobby.player1 {
            return Err(Error::AlreadyJoined);
        }
        lobby.player2 = Some(player2);
        Ok(lobby)
    }

    /// Store the calling player's commitment, at most once per player, only
    /// while the session is waiting. When this write completes the pair —
    /// both players present, both committed — the session activates in the
    /// same update: status `Active` and both floors set to 1.
    pub fn set_commit(stored: Option<Lobby>, player: Ident, commit: Commitment) -> (r: Result<
        Lobby,
        Error,
    >)
        ensures
            r == commit_call(stored, player, commit),
    {
        let mut lobby = match stored {
            Some(l) => l,
            None => {
                return Err(Error::LobbyNotFound);
            },
        };
        if lobby.status != Status::Waiting {
            return Err(Error::NotWaiting);
        }
        if player == lobby.player1 {
            if lobby.p1.commit.is_some() {
                return Err(Error::AlreadyCommitted);
            }
            lobby.p1.commit = Some(commit);
        } else {
            let is_p2 = match lobby.player2 {
                Some(p2) => p2 == player,
                None => false,
            };
            if !is_p2 {
                return Err(Error::NotPlayer);
            }
            if lobby.p2.commit.is_some() {
                return Err(Error::AlreadyCommitted);
            }
            lobby.p2.commit = Some(commit);
        }
        if lobby.player2.is_some() && lobby.p1.commit.is_some() && lobby.p2.commit.is_some() {
            lobby.status = Status::Active;
            lobby.p1.floor = 1;
            lobby.p2.floor = 1;
        }
        Ok(lobby)
    }

    /// Process one floor attempt: validate session state, caller, declared
    /// floor and sequence nonce, then consume the nonce and, when the
    /// attempt was correct, advance — immediately on an ordinary floor,
    /// through the two-sided gate release on floors 1 and 5 — finishing the
    /// session when a player passes the top floor.
    pub fn attempt_door(
        stored: Option<Lobby>,
        player: Ident,
        floor: u32,
        attempt_nonce: u32,
        is_correct: bool,
    ) -> (r: Result<Lobby, Error>)
        requires
            stored matches Some(l) ==> l.p1.floor < u32::MAX && l.p2.floor < u32::MAX,
        ensures
            r == attempt_call(stored, player, floor, attempt_nonce, is_correct),
    {
        let mut lobby = match stored {
            Some(l) => l,
            None => {
                return Err(Error::LobbyNotFound);
            },
        };
        if lobby.status != Status::Active {
            return Err(Error::LobbyInactive);
        }
        if lobby.winner.is_some() {
            return Err(Error::GameFinished);
        }

        let caller_is_p1 = player == lobby.player1;
        let caller_is_p2 = match lobby.player2 {
            Some(p2) => p2 == player,
            None => false,
        };
        if !caller_is_p1 && !caller_is_p2 {
            return Err(Error::NotPlayer);
        }

        let mut me_state = if caller_is_p1 {
            lobby.p1
        } else {
            lobby.p2
        };
        let mut other_state = if caller_is_p1 {
            lobby.p2
        } else {
            lobby.p1
        };

        if me_state.commit.is_none() {
            return Err(Error::MissingCommit);
        }
        if me_state.floor != floor {
            return Err(Error::WrongFloor);
        }
        if attempt_nonce as u64 != me_state.last_nonce as u64 + 1 {
            return Err(Error::BadNonce);
        }
        me_state.last_nonce = attempt_nonce;

        if is_correct {
            let next_floor = floor + 1;

            if floor == 1 {
                me_state.cleared_gate1 = true;
                if other_state.cleared_gate1 {
                    me_state.floor = next_floor;
                    other_state.floor = next_floor;
                }
            } else if floor == 5 {
                me_state.cleared_gate5 = true;
                if other_state.cleared_gate5 {
                    me_state.floor = next_floor;
                    other_state.floor = next_floor;
                }
            } else {
                me_state.floor = next_floor;
            }

            if next_floor > MAX_FLOOR {
                lobby.status = Status::Finished;
                lobby.winner = Some(player);
            }
        }

        if caller_is_p1 {
            lobby.p1 = me_state;
            lobby.p2 = other_state;
        } else {
            lobby.p1 = other_state;
            lobby.p2 = me_state;
        }
        Ok(lobby)
    }

    /// Look a session up: hands back exactly the stored record, touching
    /// nothing.
    pub fn get_lobby(stored: &Option<Lobby>) -> (r: Option<Lobby>)
        ensures
            r == *stored,
    {
        *stored
    }
}

} // verus!
