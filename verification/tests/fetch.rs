use image_proxy::fetch::{
    is_success_status, outcome, start, step, FetchAction, FetchError, FetchEvent, FetchState,
};

#[test]
fn success_statuses_are_200_to_299() {
    assert!(!is_success_status(0));
    assert!(!is_success_status(100));
    assert!(!is_success_status(199));
    assert!(is_success_status(200));
    assert!(is_success_status(204));
    assert!(is_success_status(299));
    assert!(!is_success_status(300));
    assert!(!is_success_status(404));
    assert!(!is_success_status(500));
    assert!(!is_success_status(u16::MAX));
}

fn begin() -> FetchState {
    start().0
}

#[test]
fn fetch_starts_by_sending_the_request() {
    let (state, action) = start();
    assert_eq!(action, FetchAction::SendGet);
    assert_eq!(state, FetchState::AwaitingResponse);
    assert_eq!(outcome(state), None);
}

#[test]
fn no_step_sends_the_request_again() {
    let events = || {
        vec![
            FetchEvent::Responded(200),
            FetchEvent::Responded(404),
            FetchEvent::BodyRead(vec![1]),
            FetchEvent::TransportFailed,
        ]
    };
    for first in events() {
        let (state, action) = step(begin(), first);
        assert_ne!(action, FetchAction::SendGet);
        for second in events() {
            let (again, _) = step(begin(), FetchEvent::Responded(200));
            assert_ne!(step(again, second).1, FetchAction::SendGet);
        }
        assert_ne!(step(state, FetchEvent::Responded(200)).1, FetchAction::SendGet);
    }
}

#[test]
fn not_found_ends_the_fetch_before_the_body_is_read() {
    let (state, action) = step(begin(), FetchEvent::Responded(404));
    assert_eq!(action, FetchAction::Stop);
    assert_eq!(state, FetchState::Done(Err(FetchError::NonSuccessStatus)));
    assert_eq!(outcome(state), Some(Err(FetchError::NonSuccessStatus)));
}

#[test]
fn redirect_and_server_error_are_no_success() {
    for status in [301, 302, 500, 503] {
        let (state, action) = step(begin(), FetchEvent::Responded(status));
        assert_eq!(action, FetchAction::Stop);
        assert_eq!(outcome(state), Some(Err(FetchError::NonSuccessStatus)));
    }
}

#[test]
fn success_status_asks_for_the_body_and_delivers_it() {
    let (state, action) = step(begin(), FetchEvent::Responded(200));
    assert_eq!(action, FetchAction::ReadBody);
    assert_eq!(state, FetchState::AwaitingBody);
    let (state, action) = step(state, FetchEvent::BodyRead(vec![1, 2, 3]));
    assert_eq!(action, FetchAction::Stop);
    assert_eq!(outcome(state), Some(Ok(vec![1, 2, 3])));
}

#[test]
fn empty_body_is_delivered_as_it_is() {
    let (state, _) = step(begin(), FetchEvent::Responded(204));
    let (state, _) = step(state, FetchEvent::BodyRead(Vec::new()));
    assert_eq!(outcome(state), Some(Ok(Vec::new())));
}

#[test]
fn transport_failure_ends_the_fetch_at_any_stage() {
    let (state, action) = step(begin(), FetchEvent::TransportFailed);
    assert_eq!(action, FetchAction::Stop);
    assert_eq!(outcome(state), Some(Err(FetchError::Transport)));

    let (state, _) = step(begin(), FetchEvent::Responded(200));
    let (state, action) = step(state, FetchEvent::TransportFailed);
    assert_eq!(action, FetchAction::Stop);
    assert_eq!(outcome(state), Some(Err(FetchError::Transport)));
}

#[test]
fn event_out_of_turn_counts_as_a_transport_failure() {
    let (state, action) = step(begin(), FetchEvent::BodyRead(vec![9]));
    assert_eq!(action, FetchAction::Stop);
    assert_eq!(outcome(state), Some(Err(FetchError::Transport)));

    let (state, _) = step(begin(), FetchEvent::Responded(200));
    let (state, action) = step(state, FetchEvent::Responded(200));
    assert_eq!(action, FetchAction::Stop);
    assert_eq!(outcome(state), Some(Err(FetchError::Transport)));
}

#[test]
fn finished_fetch_keeps_its_outcome() {
    let (done, _) = step(begin(), FetchEvent::Responded(404));
    let (state, action) = step(done, FetchEvent::Responded(200));
    assert_eq!(action, FetchAction::Stop);
    assert_eq!(state, FetchState::Done(Err(FetchError::NonSuccessStatus)));

    let (state, _) = step(begin(), FetchEvent::Responded(200));
    let (done, _) = step(state, FetchEvent::BodyRead(vec![4, 5]));
    let (state, action) = step(done, FetchEvent::TransportFailed);
    assert_eq!(action, FetchAction::Stop);
    assert_eq!(state, FetchState::Done(Ok(vec![4, 5])));
    let (state, _) = step(state, FetchEvent::BodyRead(vec![6]));
    assert_eq!(outcome(state), Some(Ok(vec![4, 5])));
}

#[test]
fn check_state_load_image() {
    let expected: Vec<u8> = (0..=255u8).cycle().take(70_000).collect();
    let (state, action) = step(begin(), FetchEvent::Responded(200));
    assert_eq!(action, FetchAction::ReadBody);
    let (state, _) = step(state, FetchEvent::BodyRead(expected.clone()));
    let res = outcome(state).unwrap().unwrap();
    assert_eq!(res.len(), expected.len());
    assert_eq!(res, expected);
}
