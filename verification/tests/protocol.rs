use mach_backend::{
    accepts, handle_client_action, ClientAction, MachBackend, ServerAction, StateCheckResponse,
};

fn register(name: &str) -> ClientAction {
    ClientAction::Register { name: name.to_string() }
}

fn join(player: usize, name: &str) -> ClientAction {
    ClientAction::JoinGame { player, game_name: name.to_string() }
}

fn ask(mach: &mut MachBackend, action: ClientAction) -> ServerAction {
    assert!(accepts(mach, &action));
    handle_client_action(mach, action)
}

#[test]
fn end_to_end_scenario() {
    let mut mach = MachBackend::new();
    assert_eq!(ask(&mut mach, register("Alice")), ServerAction::RegisterResponse { id: 1 });
    assert_eq!(ask(&mut mach, register("Bob")), ServerAction::RegisterResponse { id: 2 });
    // The match draws identifier 3, and the name of 3 is "C".
    assert_eq!(
        ask(&mut mach, ClientAction::HostGame { player: 1 }),
        ServerAction::HostGameResponse { id: 3, game_name: "C".to_string() }
    );
    assert_eq!(
        ask(&mut mach, ClientAction::StateCheck { player: 1 }),
        ServerAction::StateCheckResponse(StateCheckResponse::Waiting {
            game_name: "C".to_string()
        })
    );
    assert_eq!(
        ask(&mut mach, join(2, "C")),
        ServerAction::JoinGameResponse { success: true, game_id: 3 }
    );
    assert_eq!(ask(&mut mach, ClientAction::IncreaseScore { player: 2 }), ServerAction::Steady);
    assert_eq!(
        ask(&mut mach, ClientAction::StateCheck { player: 2 }),
        ServerAction::StateCheckResponse(StateCheckResponse::InGame {
            player: 2,
            player1_score: 0,
            player2_score: 1
        })
    );
    assert_eq!(
        ask(&mut mach, ClientAction::StateCheck { player: 1 }),
        ServerAction::StateCheckResponse(StateCheckResponse::InGame {
            player: 1,
            player1_score: 0,
            player2_score: 1
        })
    );
}

#[test]
fn first_match_of_a_fresh_store_is_called_a() {
    let mut mach = MachBackend::new();
    assert_eq!(
        ask(&mut mach, ClientAction::HostGame { player: 7 }),
        ServerAction::HostGameResponse { id: 1, game_name: "A".to_string() }
    );
    assert_eq!(
        ask(&mut mach, join(8, "A")),
        ServerAction::JoinGameResponse { success: true, game_id: 1 }
    );
}

#[test]
fn failed_join_answers_with_zero() {
    let mut mach = MachBackend::new();
    ask(&mut mach, register("Alice"));
    ask(&mut mach, ClientAction::HostGame { player: 1 });
    assert_eq!(
        ask(&mut mach, join(1, "nonexistent")),
        ServerAction::JoinGameResponse { success: false, game_id: 0 }
    );
    assert_eq!(mach.waiting_len(), 1);
    assert_eq!(mach.active_len(), 0);
}

#[test]
fn status_of_an_unknown_player_is_a_bad_request() {
    let mut mach = MachBackend::new();
    assert_eq!(ask(&mut mach, ClientAction::StateCheck { player: 1 }), ServerAction::BadRequest);
    ask(&mut mach, register("Alice"));
    assert_eq!(ask(&mut mach, ClientAction::StateCheck { player: 1 }), ServerAction::BadRequest);
    assert_eq!(ask(&mut mach, ClientAction::StateCheck { player: 0 }), ServerAction::BadRequest);
}

#[test]
fn point_of_an_unknown_player_is_steady() {
    let mut mach = MachBackend::new();
    assert_eq!(ask(&mut mach, ClientAction::IncreaseScore { player: 5 }), ServerAction::Steady);
    assert_eq!(mach.active_len(), 0);
    assert_eq!(mach.waiting_len(), 0);
}

#[test]
fn status_requests_change_nothing() {
    let mut mach = MachBackend::new();
    ask(&mut mach, register("Alice"));
    ask(&mut mach, ClientAction::HostGame { player: 1 });
    let first = ask(&mut mach, ClientAction::StateCheck { player: 1 });
    let second = ask(&mut mach, ClientAction::StateCheck { player: 1 });
    assert_eq!(first, second);
    assert_eq!(mach.waiting_len(), 1);
    // The next identifier is still 3.
    assert_eq!(ask(&mut mach, register("Bob")), ServerAction::RegisterResponse { id: 3 });
}

#[test]
fn identifiers_increase_across_mixed_requests() {
    let mut mach = MachBackend::new();
    let mut last = 0usize;
    for round in 0..50usize {
        let handed_out = match ask(&mut mach, register("p")) {
            ServerAction::RegisterResponse { id } => id,
            other => panic!("unexpected answer {:?}", other),
        };
        assert!(handed_out > last);
        last = handed_out;
        ask(&mut mach, ClientAction::StateCheck { player: round });
        ask(&mut mach, join(round, "nonexistent"));
        let handed_out = match ask(&mut mach, ClientAction::HostGame { player: round }) {
            ServerAction::HostGameResponse { id, .. } => id,
            other => panic!("unexpected answer {:?}", other),
        };
        assert!(handed_out > last);
        last = handed_out;
        ask(&mut mach, ClientAction::IncreaseScore { player: round });
    }
    assert_eq!(last, 100);
}

#[test]
fn joined_match_keeps_the_identifier_of_the_offer() {
    let mut mach = MachBackend::new();
    ask(&mut mach, register("Alice"));
    ask(&mut mach, register("Bob"));
    ask(&mut mach, ClientAction::HostGame { player: 1 });
    ask(&mut mach, ClientAction::HostGame { player: 1 });
    assert_eq!(
        ask(&mut mach, join(2, "D")),
        ServerAction::JoinGameResponse { success: true, game_id: 4 }
    );
    // Joining drew no identifier.
    assert_eq!(ask(&mut mach, register("Carol")), ServerAction::RegisterResponse { id: 5 });
}

#[test]
fn ordinary_requests_are_within_the_limits() {
    let mut mach = MachBackend::new();
    assert!(accepts(&mach, &register("Alice")));
    assert!(accepts(&mach, &ClientAction::HostGame { player: 1 }));
    assert!(accepts(&mach, &join(1, "A")));
    assert!(accepts(&mach, &ClientAction::IncreaseScore { player: 1 }));
    assert!(accepts(&mach, &ClientAction::StateCheck { player: 1 }));
    ask(&mut mach, ClientAction::HostGame { player: 1 });
    ask(&mut mach, join(2, "A"));
    assert!(accepts(&mach, &ClientAction::IncreaseScore { player: 1 }));
    assert!(accepts(&mach, &ClientAction::IncreaseScore { player: 2 }));
}
