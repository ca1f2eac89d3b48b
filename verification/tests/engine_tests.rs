use the_farm::engine::TheFarm;
use the_farm::model::{Commitment, Error, Ident, Lobby, PlayerState, Status, MAX_FLOOR};

fn commit_bytes(x: u8) -> Commitment {
    Commitment([x; 32])
}

fn fresh(creator: Ident) -> Lobby {
    TheFarm::create_lobby(100, creator).1
}

/// A session just past activation: both players seated, both committed.
fn active_pair(a: Ident, b: Ident) -> Lobby {
    let l = fresh(a);
    let l = TheFarm::join_lobby(Some(l), b).unwrap();
    let l = TheFarm::set_commit(Some(l), a, commit_bytes(1)).unwrap();
    TheFarm::set_commit(Some(l), b, commit_bytes(2)).unwrap()
}

/// Both players clear every floor in lockstep until player1's winning
/// attempt on the top floor finishes the session.
fn play_until_player1_wins(mut l: Lobby, a: Ident, b: Ident) -> Lobby {
    let mut nonce_a = 0u32;
    let mut nonce_b = 0u32;
    loop {
        nonce_a += 1;
        l = TheFarm::attempt_door(Some(l), a, l.p1.floor, nonce_a, true).unwrap();
        if l.status == Status::Finished {
            return l;
        }
        nonce_b += 1;
        l = TheFarm::attempt_door(Some(l), b, l.p2.floor, nonce_b, true).unwrap();
        assert!(l.status == Status::Active, "player2 never wins in lockstep play");
    }
}

#[test]
fn create_lobby_returns_ledger_id_and_fresh_record() {
    let a = Ident(11);
    let (id, l) = TheFarm::create_lobby(4242, a);
    assert_eq!(id, 4242);
    assert_eq!(l.status, Status::Waiting);
    assert_eq!(l.player1, a);
    assert_eq!(l.player2, None);
    assert_eq!(l.winner, None);
    for p in [l.p1, l.p2] {
        assert_eq!(p.commit, None);
        assert_eq!(p.floor, 0);
        assert_eq!(p.last_nonce, 0);
        assert!(!p.cleared_gate1);
        assert!(!p.cleared_gate5);
    }
}

#[test]
fn missing_lobby_is_lobby_not_found() {
    let a = Ident(11);
    assert_eq!(TheFarm::join_lobby(None, a), Err(Error::LobbyNotFound));
    assert_eq!(TheFarm::set_commit(None, a, commit_bytes(1)), Err(Error::LobbyNotFound));
    assert_eq!(TheFarm::attempt_door(None, a, 1, 1, true), Err(Error::LobbyNotFound));
}

#[test]
fn join_fills_second_seat_exactly_once() {
    let a = Ident(11);
    let b = Ident(22);
    let l = fresh(a);
    assert_eq!(TheFarm::join_lobby(Some(l), a), Err(Error::AlreadyJoined));
    let l = TheFarm::join_lobby(Some(l), b).unwrap();
    assert_eq!(l.player2, Some(b));
    assert_eq!(l.status, Status::Waiting);
    assert_eq!(TheFarm::join_lobby(Some(l), Ident(33)), Err(Error::AlreadyJoined));
}

#[test]
fn join_after_activation_is_not_waiting() {
    let a = Ident(11);
    let b = Ident(22);
    let l = active_pair(a, b);
    assert_eq!(TheFarm::join_lobby(Some(l), Ident(33)), Err(Error::NotWaiting));
    assert_eq!(TheFarm::set_commit(Some(l), a, commit_bytes(3)), Err(Error::NotWaiting));
}

#[test]
fn commit_by_stranger_is_not_player() {
    let a = Ident(11);
    let b = Ident(22);
    let l = fresh(a);
    let l = TheFarm::join_lobby(Some(l), b).unwrap();
    assert_eq!(TheFarm::set_commit(Some(l), Ident(33), commit_bytes(1)), Err(Error::NotPlayer));
}

#[test]
fn commit_twice_is_already_committed() {
    let a = Ident(11);
    let b = Ident(22);
    let l = fresh(a);
    let l = TheFarm::join_lobby(Some(l), b).unwrap();
    let l = TheFarm::set_commit(Some(l), a, commit_bytes(1)).unwrap();
    assert_eq!(l.p1.commit, Some(commit_bytes(1)));
    assert_eq!(TheFarm::set_commit(Some(l), a, commit_bytes(9)), Err(Error::AlreadyCommitted));
}

#[test]
fn activation_happens_exactly_at_second_commit() {
    let a = Ident(11);
    let b = Ident(22);
    let l = fresh(a);
    let l = TheFarm::join_lobby(Some(l), b).unwrap();
    let l = TheFarm::set_commit(Some(l), b, commit_bytes(2)).unwrap();
    assert_eq!(l.status, Status::Waiting);
    assert_eq!(l.p1.floor, 0);
    assert_eq!(l.p2.floor, 0);
    let l = TheFarm::set_commit(Some(l), a, commit_bytes(1)).unwrap();
    assert_eq!(l.status, Status::Active);
    assert_eq!(l.p1.floor, 1);
    assert_eq!(l.p2.floor, 1);
    assert_eq!(l.winner, None);
}

#[test]
fn commit_alone_does_not_activate_without_second_player() {
    let a = Ident(11);
    let l = fresh(a);
    let l = TheFarm::set_commit(Some(l), a, commit_bytes(1)).unwrap();
    assert_eq!(l.status, Status::Waiting);
    assert_eq!(l.p1.floor, 0);
}

#[test]
fn gate_one_waits_then_releases_both() {
    let a = Ident(11);
    let b = Ident(22);
    let l = active_pair(a, b);

    let l = TheFarm::attempt_door(Some(l), a, 1, 1, true).unwrap();
    assert_eq!(l.p1.floor, 1, "gate holds the first clearer");
    assert!(l.p1.cleared_gate1);
    assert!(!l.p2.cleared_gate1);
    assert_eq!(l.p2.floor, 1);

    let l = TheFarm::attempt_door(Some(l), b, 1, 1, true).unwrap();
    assert_eq!(l.p1.floor, 2, "second clear releases both");
    assert_eq!(l.p2.floor, 2);
    assert!(l.p2.cleared_gate1);

    assert_eq!(TheFarm::attempt_door(Some(l), a, 1, 2, true), Err(Error::WrongFloor));
}

#[test]
fn incorrect_attempt_consumes_nonce_and_advances_nothing() {
    let a = Ident(11);
    let b = Ident(22);
    let l = active_pair(a, b);
    let l2 = TheFarm::attempt_door(Some(l), a, 1, 1, false).unwrap();
    assert_eq!(l2.p1.last_nonce, 1);
    assert_eq!(l2.p1.floor, 1);
    assert!(!l2.p1.cleared_gate1);
    assert_eq!(l2.p2, l.p2);
    assert_eq!(l2.status, Status::Active);
}

#[test]
fn nonce_sequence_has_no_gaps_and_no_repeats() {
    let a = Ident(11);
    let b = Ident(22);
    let l = active_pair(a, b);

    assert_eq!(TheFarm::attempt_door(Some(l), a, 1, 0, false), Err(Error::BadNonce));
    assert_eq!(TheFarm::attempt_door(Some(l), a, 1, 2, false), Err(Error::BadNonce));

    let l = TheFarm::attempt_door(Some(l), a, 1, 1, false).unwrap();
    assert_eq!(TheFarm::attempt_door(Some(l), a, 1, 1, false), Err(Error::BadNonce));
    assert_eq!(TheFarm::attempt_door(Some(l), a, 1, 3, false), Err(Error::BadNonce));

    let l = TheFarm::attempt_door(Some(l), a, 1, 2, false).unwrap();
    assert_eq!(l.p1.last_nonce, 2);

    // The partner's counter runs independently.
    assert_eq!(l.p2.last_nonce, 0);
    let l = TheFarm::attempt_door(Some(l), b, 1, 1, false).unwrap();
    assert_eq!(l.p2.last_nonce, 1);
    assert_eq!(l.p1.last_nonce, 2);
}

#[test]
fn attempt_on_waiting_lobby_is_inactive() {
    let a = Ident(11);
    let l = fresh(a);
    assert_eq!(TheFarm::attempt_door(Some(l), a, 0, 1, true), Err(Error::LobbyInactive));
}

#[test]
fn attempt_with_stale_floor_is_wrong_floor() {
    let a = Ident(11);
    let b = Ident(22);
    let l = active_pair(a, b);
    assert_eq!(TheFarm::attempt_door(Some(l), a, 0, 1, true), Err(Error::WrongFloor));
    assert_eq!(TheFarm::attempt_door(Some(l), a, 2, 1, true), Err(Error::WrongFloor));
}

#[test]
fn attempt_without_commit_is_missing_commit() {
    // The defensive check: an active record whose slot lost its commitment
    // is refused before any floor or nonce validation.
    let a = Ident(11);
    let b = Ident(22);
    let mut l = active_pair(a, b);
    l.p1.commit = None;
    assert_eq!(TheFarm::attempt_door(Some(l), a, 1, 1, true), Err(Error::MissingCommit));
}

#[test]
fn attempt_with_winner_already_set_is_game_finished() {
    // The defensive check: an active record that somehow carries a winner
    // accepts no attempt.
    let a = Ident(11);
    let b = Ident(22);
    let mut l = active_pair(a, b);
    l.winner = Some(a);
    assert_eq!(TheFarm::attempt_door(Some(l), a, 1, 1, true), Err(Error::GameFinished));
}

#[test]
fn non_participant_attempt_is_not_player_and_state_unchanged() {
    let a = Ident(11);
    let b = Ident(22);
    let l = active_pair(a, b);
    assert_eq!(TheFarm::attempt_door(Some(l), Ident(33), 1, 1, true), Err(Error::NotPlayer));
    // The engine returned no record to write: the stored one reads back as it was.
    assert_eq!(TheFarm::get_lobby(&Some(l)), Some(l));
}

#[test]
fn player1_wins_on_the_top_floor() {
    let a = Ident(11);
    let b = Ident(22);
    let l = active_pair(a, b);
    let l = play_until_player1_wins(l, a, b);

    assert_eq!(l.status, Status::Finished);
    assert_eq!(l.winner, Some(a));
    assert_eq!(l.p1.floor, MAX_FLOOR + 1);
    assert_eq!(l.p2.floor, MAX_FLOOR);
    assert!(l.p1.cleared_gate1 && l.p1.cleared_gate5);

    // Immediately visible to a read, and terminal for both players.
    assert_eq!(TheFarm::get_lobby(&Some(l)), Some(l));
    assert_eq!(
        TheFarm::attempt_door(Some(l), b, l.p2.floor, l.p2.last_nonce + 1, true),
        Err(Error::LobbyInactive)
    );
    assert_eq!(
        TheFarm::attempt_door(Some(l), a, l.p1.floor, l.p1.last_nonce + 1, true),
        Err(Error::LobbyInactive)
    );
}

#[test]
fn player2_wins_when_ahead() {
    let a = Ident(11);
    let b = Ident(22);
    let mut l = active_pair(a, b);

    // Clear both gates in lockstep, then let player2 run ahead alone.
    l = TheFarm::attempt_door(Some(l), a, 1, 1, true).unwrap();
    l = TheFarm::attempt_door(Some(l), b, 1, 1, true).unwrap();
    let mut nonce_a = 1u32;
    let mut nonce_b = 1u32;
    while l.p2.floor < 5 {
        nonce_b += 1;
        l = TheFarm::attempt_door(Some(l), b, l.p2.floor, nonce_b, true).unwrap();
    }
    while l.p1.floor < 5 {
        nonce_a += 1;
        l = TheFarm::attempt_door(Some(l), a, l.p1.floor, nonce_a, true).unwrap();
    }
    nonce_b += 1;
    l = TheFarm::attempt_door(Some(l), b, 5, nonce_b, true).unwrap();
    assert_eq!(l.p2.floor, 5, "gate five holds player2");
    nonce_a += 1;
    l = TheFarm::attempt_door(Some(l), a, 5, nonce_a, true).unwrap();
    assert_eq!(l.p1.floor, 6);
    assert_eq!(l.p2.floor, 6);

    while l.status == Status::Active {
        nonce_b += 1;
        l = TheFarm::attempt_door(Some(l), b, l.p2.floor, nonce_b, true).unwrap();
    }
    assert_eq!(l.status, Status::Finished);
    assert_eq!(l.winner, Some(b));
    assert_eq!(l.p2.floor, MAX_FLOOR + 1);
}

#[test]
fn gate_five_waits_for_the_partner_even_when_ahead() {
    let a = Ident(11);
    let b = Ident(22);
    let mut l = active_pair(a, b);
    l = TheFarm::attempt_door(Some(l), a, 1, 1, true).unwrap();
    l = TheFarm::attempt_door(Some(l), b, 1, 1, true).unwrap();

    // Player1 climbs to the second gate alone and clears it; no release.
    let mut nonce_a = 1u32;
    while l.p1.floor < 5 {
        nonce_a += 1;
        l = TheFarm::attempt_door(Some(l), a, l.p1.floor, nonce_a, true).unwrap();
    }
    nonce_a += 1;
    l = TheFarm::attempt_door(Some(l), a, 5, nonce_a, true).unwrap();
    assert!(l.p1.cleared_gate5);
    assert_eq!(l.p1.floor, 5);
    assert_eq!(l.p2.floor, 2);

    // The partner catches up and clears; both are released to floor 6.
    let mut nonce_b = 1u32;
    while l.p2.floor < 5 {
        nonce_b += 1;
        l = TheFarm::attempt_door(Some(l), b, l.p2.floor, nonce_b, true).unwrap();
    }
    nonce_b += 1;
    l = TheFarm::attempt_door(Some(l), b, 5, nonce_b, true).unwrap();
    assert_eq!(l.p1.floor, 6);
    assert_eq!(l.p2.floor, 6);
}

#[test]
fn read_twice_returns_identical_records() {
    let a = Ident(11);
    let b = Ident(22);
    let stored = Some(active_pair(a, b));
    let first = TheFarm::get_lobby(&stored);
    let second = TheFarm::get_lobby(&stored);
    assert_eq!(first, second);
    assert_eq!(first, stored);
    assert_eq!(TheFarm::get_lobby(&None), None);
}

#[test]
fn status_never_regresses_through_a_whole_game() {
    let a = Ident(11);
    let b = Ident(22);
    let mut rank_seen = 0u32;
    let rank = |s: Status| match s {
        Status::Waiting => 0u32,
        Status::Active => 1,
        Status::Finished => 2,
    };

    let l = fresh(a);
    for status in [
        l.status,
        TheFarm::join_lobby(Some(l), b).unwrap().status,
    ] {
        assert!(rank(status) >= rank_seen);
        rank_seen = rank(status);
    }
    let l = TheFarm::join_lobby(Some(l), b).unwrap();
    let l = TheFarm::set_commit(Some(l), a, commit_bytes(1)).unwrap();
    assert!(rank(l.status) >= rank_seen);
    rank_seen = rank(l.status);
    let l = TheFarm::set_commit(Some(l), b, commit_bytes(2)).unwrap();
    assert!(rank(l.status) >= rank_seen);
    rank_seen = rank(l.status);
    let l = play_until_player1_wins(l, a, b);
    assert!(rank(l.status) >= rank_seen);
    assert_eq!(l.status, Status::Finished);
}

#[test]
fn player_state_fields_round_trip() {
    let p = PlayerState {
        commit: Some(commit_bytes(7)),
        floor: 3,
        last_nonce: 9,
        cleared_gate1: true,
        cleared_gate5: false,
    };
    assert_eq!(p, p);
    assert_eq!(p.commit, Some(Commitment([7; 32])));
}
