use tictactoe_p2p::codec::decode_message;
use tictactoe_p2p::session::{
    handle_input, handle_message, Effects, GameSession, Input, OutputEvents, SessionError,
    SessionPhase, TurnOwner,
};

/// Delivers one published payload to the other side, as the shared channel
/// would, and returns what that side was asked to show.
fn deliver(eff: &Effects, session: &mut GameSession, local_id: &String) -> Vec<OutputEvents> {
    let payload = eff.publish.as_ref().expect("a payload to deliver");
    let msg = decode_message(payload).expect("a decodable payload");
    let eff = handle_message(session, msg, local_id);
    assert!(eff.publish.is_none());
    assert!(eff.error.is_none());
    eff.events
}

#[test]
fn list_peers_reports_the_discovered_peers() {
    let mut session = GameSession::new();
    let peers = vec![String::from("peer-a"), String::from("peer-b")];
    let eff = handle_input(&mut session, Input::ListPeers, &peers);
    assert!(eff.publish.is_none());
    assert!(eff.error.is_none());
    assert_eq!(eff.events, vec![OutputEvents::ListPeers(peers)]);
}

#[test]
fn a_turn_before_any_game_reports_guidance() {
    let mut session = GameSession::new();
    let eff = handle_input(&mut session, Input::Turn(0, 0), &Vec::new());
    assert!(eff.publish.is_none());
    assert!(eff.events.is_empty());
    assert_eq!(eff.error, Some(SessionError::NotInitiated));
}

#[test]
fn a_bad_peer_index_is_dropped_silently() {
    let mut session = GameSession::new();
    let peers = vec![String::from("peer-a")];
    for arg in ["1", "x", "", "99999999999999999999"] {
        let eff = handle_input(
            &mut session,
            Input::InitiateGame(String::from(arg)),
            &peers,
        );
        assert!(eff.publish.is_none());
        assert!(eff.events.is_empty());
        assert!(eff.error.is_none());
        assert_eq!(session.phase(), SessionPhase::Idle);
    }
}

#[test]
fn answering_without_an_invite_reports_guidance() {
    let mut session = GameSession::new();
    let eff = handle_input(&mut session, Input::Yes, &Vec::new());
    assert_eq!(eff.error, Some(SessionError::NotInitiated));
    assert!(eff.publish.is_none());
}

#[test]
fn a_whole_game_played_over_the_wire() {
    let id_a = String::from("peer-id-a");
    let id_b = String::from("peer-id-b");
    let mut alice = GameSession::new();
    let mut bob = GameSession::new();
    // Alice invites the peer at index 0 of her discovered list: Bob.
    let peers = vec![id_b.clone()];
    let invite = handle_input(&mut alice, Input::InitiateGame(String::from("0")), &peers);
    assert!(invite.error.is_none());
    assert_eq!(
        invite.publish,
        Some(b"{\"sender\":\"peer-id-b\"}".to_vec())
    );
    assert_eq!(
        alice.phase(),
        SessionPhase::Invited { as_initiator: true }
    );
    // Bob sees the proposal; his own session leaves Idle as invitee.
    let events = deliver(&invite, &mut bob, &id_b);
    assert_eq!(events, vec![OutputEvents::GameProposal(id_b.clone())]);
    assert_eq!(bob.phase(), SessionPhase::Invited { as_initiator: false });
    // Bob accepts and is shown the empty board; the opponent moves first.
    let answer = handle_input(&mut bob, Input::Yes, &Vec::new());
    assert_eq!(answer.publish, Some(b"{\"accept\":true}".to_vec()));
    assert!(matches!(answer.events[0], OutputEvents::StartTrue(_)));
    assert_eq!(bob.turn(), TurnOwner::Opponent);
    // Alice learns the game started and moves first.
    let events = deliver(&answer, &mut alice, &id_a);
    assert!(matches!(events[0], OutputEvents::StartTrue(_)));
    assert_eq!(alice.turn(), TurnOwner::You);
    // Alice plays the top row across turns 1, 3 and 5; Bob replies in
    // between.  Each accepted turn crosses the wire.
    let moves = [
        (Input::Turn(0, 0), (1, 0)),
        (Input::Turn(0, 1), (1, 1)),
    ];
    for (alice_move, (bx, by)) in moves {
        let eff = handle_input(&mut alice, alice_move, &Vec::new());
        let events = deliver(&eff, &mut bob, &id_b);
        assert!(matches!(events[0], OutputEvents::TurnResolved(_)));
        let eff = handle_input(&mut bob, Input::Turn(bx, by), &Vec::new());
        let events = deliver(&eff, &mut alice, &id_a);
        assert!(matches!(events[0], OutputEvents::TurnResolved(_)));
    }
    // The winning move: Alice's session concludes and comes back fresh for
    // the next game; Bob is shown the final board and the game-over notice.
    let eff = handle_input(&mut alice, Input::Turn(0, 2), &Vec::new());
    assert!(eff.error.is_none());
    assert_eq!(alice.phase(), SessionPhase::Idle);
    assert_eq!(alice.turn(), TurnOwner::Unset);
    let events = deliver(&eff, &mut bob, &id_b);
    assert_eq!(events.len(), 2);
    match &events[0] {
        OutputEvents::TurnResolved(state) => {
            // seen from the losing side: the winner's marks are the
            // opponent's crosses
            assert_eq!(state[0], ['X', 'X', 'X']);
            assert_eq!(state[1], ['O', 'O', ' ']);
        },
        other => panic!("expected the final board, got {:?}", other),
    }
    assert!(matches!(events[1], OutputEvents::GameOver));
    assert_eq!(bob.phase(), SessionPhase::Idle);
}

#[test]
fn a_foreign_invite_does_not_disturb_an_idle_session() {
    let id_b = String::from("peer-id-b");
    let mut bob = GameSession::new();
    let msg = decode_message(b"{\"sender\":\"someone-else\"}").unwrap();
    let eff = handle_message(&mut bob, msg, &id_b);
    assert!(eff.events.is_empty());
    assert_eq!(bob.phase(), SessionPhase::Idle);
}

#[test]
fn an_injected_turn_while_it_is_not_the_opponents_turn_is_ignored() {
    let id_a = String::from("peer-id-a");
    let mut alice = GameSession::new();
    alice.initiate(String::from("peer-id-b"));
    alice.receive_answer(true);
    // it is Alice's turn; a turn message from the channel must not apply
    let msg = decode_message(b"{\"x\":0,\"y\":0}").unwrap();
    let eff = handle_message(&mut alice, msg, &id_a);
    assert!(eff.events.is_empty());
    assert_eq!(alice.get_state()[0][0], ' ');
    assert_eq!(alice.turn(), TurnOwner::You);
}
