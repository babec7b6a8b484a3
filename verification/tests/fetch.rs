use clemens::fetch::{FetchAction, FetchEvent, FetchState};

#[test]
fn a_fetched_block_is_handed_on() {
    assert_eq!(FetchState::new().next(FetchEvent::Fetched), FetchAction::Finish);
}

#[test]
fn a_block_is_handed_on_after_failures() {
    for failures in 0..6 {
        let mut state = FetchState::new();
        for _ in 0..failures {
            assert_eq!(state.next(FetchEvent::Failed), FetchAction::Retry(5));
        }
        assert_eq!(state.next(FetchEvent::Fetched), FetchAction::Finish);
    }
}

#[test]
fn the_sixth_failure_is_reported() {
    let mut state = FetchState::new();
    for _ in 0..5 {
        assert_eq!(state.next(FetchEvent::Failed), FetchAction::Retry(5));
    }
    assert_eq!(state.next(FetchEvent::Failed), FetchAction::GiveUp);
}
