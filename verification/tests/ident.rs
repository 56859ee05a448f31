use mach_backend::{next_id, GameState, Id, IdAllocator};

#[test]
fn first_identifier_is_one() {
    let mut ids = IdAllocator::new();
    assert_eq!(next_id(&mut ids), Id(1));
}

#[test]
fn identifiers_count_up_by_one() {
    let mut ids = IdAllocator::new();
    for expected in 1..=1000usize {
        assert!(ids.can_allocate());
        assert_eq!(next_id(&mut ids), Id(expected));
    }
}

#[test]
fn identifiers_never_repeat() {
    let mut ids = IdAllocator::new();
    let mut last = 0usize;
    for _ in 0..500 {
        let Id(n) = next_id(&mut ids);
        assert!(n > last);
        last = n;
    }
}

#[test]
fn separate_allocators_count_separately() {
    let mut a = IdAllocator::new();
    let mut b = IdAllocator::new();
    assert_eq!(next_id(&mut a), Id(1));
    assert_eq!(next_id(&mut a), Id(2));
    assert_eq!(next_id(&mut b), Id(1));
}

#[test]
fn new_game_state_is_nil_nil() {
    let state = GameState::new();
    assert_eq!(state.player1_score, 0);
    assert_eq!(state.player2_score, 0);
    assert_eq!(state, GameState { player1_score: 0, player2_score: 0 });
}
