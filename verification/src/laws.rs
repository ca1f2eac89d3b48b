use vstd::prelude::*;

use crate::engine::{
    apply_attempt, attempt_step, commit_step, join_step, other_of, player_slot, self_of,
};
use crate::model::{
    fresh_lobby, lobby_wf, ready_to_activate, Commitment, Error, Ident, Lobby, Status, MAX_FLOOR,
};

verus! {

/// One engine call against a single session record, with its arguments:
/// the alphabet over which runs of the session state machine are stated.
pub enum Step {
    Join(Ident),
    Commit(Ident, Commitment),
    Attempt(Ident, u32, u32, bool),
}

/// The outcome of one call on a record.
pub open spec fn step_spec(l: Lobby, s: Step) -> Result<Lobby, Error> {
    match s {
        Step::Join(p) => join_step(l, p),
        Step::Commit(p, c) => commit_step(l, p, c),
        Step::Attempt(p, floor, nonce, ok) => attempt_step(l, p, floor, nonce, ok),
    }
}

/// The record after one call: a refused call leaves it untouched.
pub open spec fn step_result(l: Lobby, s: Step) -> Lobby {
    match step_spec(l, s) {
        Ok(l2) => l2,
        Err(_) => l,
    }
}

/// The record after a whole sequence of calls, applied first to last.
pub open spec fn run_steps(l: Lobby, steps: Seq<Step>) -> Lobby
    decreases steps.len(),
{
    if steps.len() == 0 {
        l
    } else {
        run_steps(step_result(l, steps[0]), steps.drop_first())
    }
}

/// Position of a status in the lifecycle order.
pub open spec fn status_rank(s: Status) -> int {
    match s {
        Status::Waiting => 0,
        Status::Active => 1,
        Status::Finished => 2,
    }
}

/// The lifecycle order `Waiting < Active < Finished`.
pub open spec fn status_le(a: Status, b: Status) -> bool {
    status_rank(a) <= status_rank(b)
}

/// A newly created lobby is well-formed.
pub proof fn lemma_create_wf(player1: Ident)
    ensures
        lobby_wf(fresh_lobby(player1)),
{
}

/// No single call, accepted or refused, moves the status backwards.
pub proof fn lemma_step_status_monotone(l: Lobby, s: Step)
    ensures
        status_le(l.status, step_result(l, s).status),
{
}

/// Status is non-decreasing over every sequence of calls: the lifecycle
/// only ever moves `Waiting -> Active -> Finished`.
pub proof fn lemma_run_status_monotone(l: Lobby, steps: Seq<Step>)
    ensures
        status_le(l.status, run_steps(l, steps).status),
    decreases steps.len(),
{
    if steps.len() > 0 {
        lemma_step_status_monotone(l, steps[0]);
        lemma_run_status_monotone(step_result(l, steps[0]), steps.drop_first());
    }
}

/// Every call preserves well-formedness of the session record.
pub proof fn lemma_step_preserves_wf(l: Lobby, s: Step)
    requires
        lobby_wf(l),
    ensures
        lobby_wf(step_result(l, s)),
{
    match s {
        Step::Join(_) => {},
        Step::Commit(_, _) => {},
        Step::Attempt(p, floor, nonce, ok) => {
            lemma_attempt_preserves_wf(l, p, floor, nonce, ok);
        },
    }
}

/// An accepted attempt preserves well-formedness.
pub proof fn lemma_attempt_preserves_wf(
    l: Lobby,
    player: Ident,
    floor: u32,
    nonce: u32,
    ok: bool,
)
    requires
        lobby_wf(l),
    ensures
        attempt_step(l, player, floor, nonce, ok) matches Ok(l2) ==> lobby_wf(l2),
{
    if attempt_step(l, player, floor, nonce, ok) is Ok {
        let is_p1 = player_slot(l, player)->0;
        let l2 = apply_attempt(l, player, is_p1, floor, nonce, ok);
        assert(lobby_wf(l2));
    }
}

/// Well-formedness holds after every sequence of calls on a well-formed
/// record: the invariants of the data model are never observable as broken.
pub proof fn lemma_run_preserves_wf(l: Lobby, steps: Seq<Step>)
    requires
        lobby_wf(l),
    ensures
        lobby_wf(run_steps(l, steps)),
    decreases steps.len(),
{
    if steps.len() > 0 {
        lemma_step_preserves_wf(l, steps[0]);
        lemma_run_preserves_wf(step_result(l, steps[0]), steps.drop_first());
    }
}

/// The creator is fixed at creation and the second seat, once filled, is
/// never changed or cleared by any call.
pub proof fn lemma_players_stable(l: Lobby, s: Step)
    ensures
        step_result(l, s).player1 == l.player1,
        l.player2 is Some ==> step_result(l, s).player2 == l.player2,
{
}

/// A commitment, once stored, is never changed or cleared by any call.
pub proof fn lemma_commit_stable(l: Lobby, s: Step)
    ensures
        l.p1.commit is Some ==> step_result(l, s).p1.commit == l.p1.commit,
        l.p2.commit is Some ==> step_result(l, s).p2.commit == l.p2.commit,
{
}

/// Each individual gate-clear flag is settable only once: true stays true.
pub proof fn lemma_gate_flags_monotone(l: Lobby, s: Step)
    ensures
        l.p1.cleared_gate1 ==> step_result(l, s).p1.cleared_gate1,
        l.p2.cleared_gate1 ==> step_result(l, s).p2.cleared_gate1,
        l.p1.cleared_gate5 ==> step_result(l, s).p1.cleared_gate5,
        l.p2.cleared_gate5 ==> step_result(l, s).p2.cleared_gate5,
{
}

/// Floors never move backwards.
pub proof fn lemma_floor_monotone(l: Lobby, s: Step)
    requires
        lobby_wf(l),
    ensures
        step_result(l, s).p1.floor >= l.p1.floor,
        step_result(l, s).p2.floor >= l.p2.floor,
{
}

/// A commitment write is the only call that can activate a session, and it
/// activates exactly when it completes the pair: afterwards the session is
/// active if and only if both players are present and both have committed,
/// and activation sets both floors to 1 in the same transition.
pub proof fn lemma_activation(l: Lobby, player: Ident, commit: Commitment)
    requires
        lobby_wf(l),
    ensures
        commit_step(l, player, commit) matches Ok(l2) ==> {
            &&& (l2.status == Status::Active <==> ready_to_activate(l2))
            &&& (l2.status == Status::Active ==> l.status == Status::Waiting && l2.p1.floor == 1
                && l2.p2.floor == 1)
        },
{
}

/// From a waiting session, no call other than a commitment write reaches
/// the active state.
pub proof fn lemma_only_commit_activates(l: Lobby, s: Step)
    requires
        lobby_wf(l),
        l.status == Status::Waiting,
    ensures
        step_result(l, s).status == Status::Active ==> s is Commit && ready_to_activate(
            step_result(l, s),
        ),
{
}

/// The last accepted attempt sequence number for an identity: its slot's
/// counter when it occupies one, and 0 — the counter every slot starts
/// from — when it occupies none.
pub open spec fn player_nonce(l: Lobby, p: Ident) -> u32 {
    if p == l.player1 {
        l.p1.last_nonce
    } else if l.player2 == Some(p) {
        l.p2.last_nonce
    } else {
        0
    }
}

/// The call is an attempt by this identity and the engine accepted it.
pub open spec fn accepted_attempt_by(l: Lobby, s: Step, p: Ident) -> bool {
    &&& s matches Step::Attempt(q, _, _, _) && q == p
    &&& step_spec(l, s) is Ok
}

/// The sequence number an attempt step carries; meaningful only for
/// attempts.
pub open spec fn step_nonce(s: Step) -> u32 {
    match s {
        Step::Attempt(_, _, nonce, _) => nonce,
        _ => 0,
    }
}

/// The attempt nonces accepted for one identity over a sequence of calls,
/// in call order.
pub open spec fn accepted_nonces(l: Lobby, steps: Seq<Step>, p: Ident) -> Seq<u32>
    decreases steps.len(),
{
    if steps.len() == 0 {
        Seq::empty()
    } else {
        let rest = accepted_nonces(step_result(l, steps[0]), steps.drop_first(), p);
        if accepted_attempt_by(l, steps[0], p) {
            seq![step_nonce(steps[0])] + rest
        } else {
            rest
        }
    }
}

/// An attempt is accepted exactly with the successor of the player's last
/// accepted nonce: the same nonce is never accepted twice and none is
/// skipped.
pub proof fn lemma_nonce_strict(l: Lobby, player: Ident, floor: u32, nonce: u32, ok: bool)
    ensures
        attempt_step(l, player, floor, nonce, ok) is Ok ==> nonce == player_nonce(l, player) + 1,
{
}

/// After an accepted attempt, no attempt by the same player with the same
/// or any smaller nonce is ever accepted again on the resulting record;
/// when the session is still active and the declared floor is current, the
/// refusal is specifically the bad-nonce condition.
pub proof fn lemma_no_replay(
    l: Lobby,
    player: Ident,
    floor: u32,
    nonce: u32,
    ok: bool,
    floor2: u32,
    nonce2: u32,
    ok2: bool,
)
    requires
        lobby_wf(l),
        attempt_step(l, player, floor, nonce, ok) is Ok,
        nonce2 <= nonce,
    ensures
        attempt_step(l, player, floor, nonce, ok) matches Ok(l2) ==> {
            &&& attempt_step(l2, player, floor2, nonce2, ok2) is Err
            &&& (l2.status == Status::Active && floor2 == self_of(l2, player == l.player1).floor
                ==> attempt_step(l2, player, floor2, nonce2, ok2) == Err::<Lobby, Error>(
                Error::BadNonce,
            ))
        },
{
    lemma_attempt_preserves_wf(l, player, floor, nonce, ok);
}

/// How one call moves a player's nonce counter: an accepted attempt by that
/// player carries the successor nonce and advances the counter to it; every
/// other call leaves the counter alone.
pub proof fn lemma_step_player_nonce(l: Lobby, s: Step, p: Ident)
    requires
        lobby_wf(l),
    ensures
        accepted_attempt_by(l, s, p) ==> step_nonce(s) == player_nonce(l, p) + 1 && player_nonce(
            step_result(l, s),
            p,
        ) == player_nonce(l, p) + 1,
        !accepted_attempt_by(l, s, p) ==> player_nonce(step_result(l, s), p) == player_nonce(l, p),
{
}

/// Within one session, the attempt nonces accepted for a player form the
/// gapless, repetition-free run that continues the player's counter:
/// starting from a fresh record they are exactly 1, 2, 3, ...
pub proof fn lemma_nonce_sequence(l: Lobby, steps: Seq<Step>, p: Ident)
    requires
        lobby_wf(l),
    ensures
        forall|i: int|
            0 <= i < accepted_nonces(l, steps, p).len() ==> accepted_nonces(l, steps, p)[i]
                == player_nonce(l, p) + 1 + i,
    decreases steps.len(),
{
    if steps.len() > 0 {
        let s0 = steps[0];
        let l1 = step_result(l, s0);
        let rest = accepted_nonces(l1, steps.drop_first(), p);
        let whole = accepted_nonces(l, steps, p);
        lemma_step_preserves_wf(l, s0);
        lemma_step_player_nonce(l, s0, p);
        lemma_nonce_sequence(l1, steps.drop_first(), p);
        if accepted_attempt_by(l, s0, p) {
            assert(whole == seq![step_nonce(s0)] + rest);
            assert forall|i: int| 0 <= i < whole.len() implies whole[i] == player_nonce(l, p) + 1
                + i by {
                if i > 0 {
                    assert(whole[i] == rest[i - 1]);
                }
            }
        } else {
            assert(whole == rest);
        }
    }
}

/// Over any sequence of calls on a newly created session, the attempt
/// nonces accepted for any player are exactly 1, 2, 3, ... in order.
pub proof fn lemma_nonce_sequence_from_creation(player1: Ident, steps: Seq<Step>, p: Ident)
    ensures
        forall|i: int|
            0 <= i < accepted_nonces(fresh_lobby(player1), steps, p).len() ==> accepted_nonces(
                fresh_lobby(player1),
                steps,
                p,
            )[i] == 1 + i,
{
    lemma_create_wf(player1);
    lemma_nonce_sequence(fresh_lobby(player1), steps, p);
}

/// While either player has yet to clear gate floor 1, neither player is
/// past it: an active session holds both on floor 1 until the release.
pub proof fn lemma_gate1_bars_progress(l: Lobby)
    requires
        lobby_wf(l),
        l.status == Status::Active,
        !(l.p1.cleared_gate1 && l.p2.cleared_gate1),
    ensures
        l.p1.floor == 1,
        l.p2.floor == 1,
{
}

/// While either player has yet to clear gate floor 5, neither player is
/// past it.
pub proof fn lemma_gate5_bars_progress(l: Lobby)
    requires
        lobby_wf(l),
        l.status == Status::Active,
        !(l.p1.cleared_gate5 && l.p2.cleared_gate5),
    ensures
        l.p1.floor <= 5,
        l.p2.floor <= 5,
{
}

/// A player who clears gate floor 1 before the partner records the
/// individual clear but stays on floor 1, and the partner's state is left
/// untouched: a successful attempt at a gate is not yet an advance.
pub proof fn lemma_gate1_clear_waits(l: Lobby, player: Ident, nonce: u32)
    requires
        lobby_wf(l),
        !other_of(l, player == l.player1).cleared_gate1,
    ensures
        attempt_step(l, player, 1, nonce, true) matches Ok(l2) ==> {
            let is_p1 = player == l.player1;
            &&& self_of(l2, is_p1).cleared_gate1
            &&& self_of(l2, is_p1).floor == 1
            &&& other_of(l2, is_p1) == other_of(l, is_p1)
            &&& l2.status == Status::Active
        },
{
}

/// The attempt that completes a gate-1 clear releases both players: the
/// call in which the second player clears moves both floors to 2 at once.
pub proof fn lemma_gate1_release(l: Lobby, player: Ident, nonce: u32)
    requires
        lobby_wf(l),
        other_of(l, player == l.player1).cleared_gate1,
    ensures
        attempt_step(l, player, 1, nonce, true) matches Ok(l2) ==> {
            &&& l2.p1.floor == 2
            &&& l2.p2.floor == 2
            &&& l2.p1.cleared_gate1
            &&& l2.p2.cleared_gate1
            &&& l2.status == Status::Active
        },
{
}

/// A finished session accepts no further call: every step on it is refused
/// and the record — winner included — never changes again.
pub proof fn lemma_finished_terminal(l: Lobby, s: Step)
    requires
        lobby_wf(l),
        l.status == Status::Finished,
    ensures
        step_spec(l, s) is Err,
        step_result(l, s) == l,
{
}

/// The winner is always one of the two participants, exists exactly on
/// finished sessions, and is never overwritten once set.
pub proof fn lemma_winner_wf(l: Lobby, s: Step)
    requires
        lobby_wf(l),
    ensures
        step_result(l, s).winner is Some <==> step_result(l, s).status == Status::Finished,
        l.winner is Some ==> step_result(l, s).winner == l.winner && step_result(l, s) == l,
        step_result(l, s).winner is Some ==> step_result(l, s).winner == Some(
            step_result(l, s).player1,
        ) || step_result(l, s).winner == step_result(l, s).player2,
{
    lemma_step_preserves_wf(l, s);
    if l.winner is Some {
        lemma_finished_terminal(l, s);
    }
}

/// The winner is set exactly by the call that finishes the session: a
/// correct attempt by a participant standing on the top floor, and the
/// winner is that caller.
pub proof fn lemma_winner_on_finish(l: Lobby, s: Step)
    requires
        lobby_wf(l),
        l.status != Status::Finished,
    ensures
        step_result(l, s).status == Status::Finished ==> {
            &&& s matches Step::Attempt(p, floor, nonce, ok)
            &&& ok
            &&& floor == MAX_FLOOR
            &&& (p == l.player1 || l.player2 == Some(p))
            &&& step_result(l, s).winner == Some(p)
        },
{
}

/// Reading is deterministic: any two results of a lookup against the same
/// stored record are identical, so reads repeated with no intervening
/// mutation agree.
pub proof fn lemma_read_idempotent(stored: Option<Lobby>, r1: Option<Lobby>, r2: Option<Lobby>)
    requires
        r1 == stored,
        r2 == stored,
    ensures
        r1 == r2,
{
}

} // verus!
