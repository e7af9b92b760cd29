use call_bridge::message::Message;
use call_bridge::state::{connected_signal, SessionRegistry, SessionState, CODE_SPACE};
use crossbeam_channel::{unbounded, Receiver, Sender};

fn channel() -> (Sender<Message>, Receiver<Message>) {
    unbounded()
}

fn text(said: &str) -> Message {
    Message::Text(said.to_string())
}

#[test]
fn a_new_registry_has_no_sessions() {
    let registry: SessionRegistry = SessionRegistry::new();
    for code in 0..CODE_SPACE {
        assert!(!registry.is_live(code));
        assert_eq!(registry.state(code), SessionState::Closed);
    }
}

#[test]
fn claims_a_free_code() {
    let mut registry: SessionRegistry = SessionRegistry::new();
    let (game_tx, _game_rx) = channel();
    assert_eq!(registry.claim(42, game_tx).ok(), Some(42));
    assert!(registry.is_live(42));
    assert!(!registry.is_live(41));
    assert_eq!(registry.state(42), SessionState::Pending);
}

#[test]
fn does_not_claim_a_live_code() {
    let mut registry: SessionRegistry = SessionRegistry::new();
    let (first_tx, first_rx) = channel();
    let (second_tx, second_rx) = channel();
    assert!(registry.claim(42, first_tx).is_ok());
    let returned: Sender<Message> = registry.claim(42, second_tx).unwrap_err();
    // The channel that came back is the one that was offered.
    returned.send(text("mine")).unwrap();
    assert_eq!(second_rx.try_recv().ok(), Some(text("mine")));
    // The session keeps the channel it was registered with.
    assert!(registry.lookup_and_forward(42, text("hello")));
    assert_eq!(first_rx.try_recv().ok(), Some(text("hello")));
    assert!(second_rx.try_recv().is_err());
}

#[test]
fn does_not_claim_what_is_no_code() {
    let mut registry: SessionRegistry = SessionRegistry::new();
    let (game_tx, _game_rx) = channel();
    let returned = registry.claim(CODE_SPACE, game_tx).unwrap_err();
    assert!(registry.claim(4294967295, returned).is_err());
    assert!(!registry.is_live(CODE_SPACE));
}

#[test]
fn allocates_a_code_in_range_that_was_free() {
    let mut registry: SessionRegistry = SessionRegistry::new();
    let (game_tx, game_rx) = channel();
    let code: u32 = registry.allocate(game_tx, 1).ok().unwrap();
    assert!(code < CODE_SPACE);
    assert!(registry.is_live(code));
    assert_eq!(registry.state(code), SessionState::Pending);
    assert!(registry.lookup_and_forward(code, text("hi")));
    assert_eq!(game_rx.try_recv().ok(), Some(text("hi")));
}

#[test]
fn allocations_never_share_a_code() {
    let mut registry: SessionRegistry = SessionRegistry::new();
    let mut codes: Vec<u32> = Vec::new();
    let mut receivers: Vec<Receiver<Message>> = Vec::new();
    while codes.len() < 60 {
        let (game_tx, game_rx) = channel();
        if let Ok(code) = registry.allocate(game_tx, 1000) {
            assert!(code < CODE_SPACE);
            assert!(!codes.contains(&code));
            codes.push(code);
            receivers.push(game_rx);
        }
    }
    for (i, code) in codes.iter().enumerate() {
        assert!(registry.lookup_and_forward(*code, text(&i.to_string())));
    }
    for (i, game_rx) in receivers.iter().enumerate() {
        assert_eq!(game_rx.try_recv().ok(), Some(text(&i.to_string())));
        assert!(game_rx.try_recv().is_err());
    }
}

#[test]
fn allocation_gives_up_when_every_code_is_taken() {
    let mut registry: SessionRegistry = SessionRegistry::new();
    for code in 0..CODE_SPACE {
        let (game_tx, _game_rx) = channel();
        assert!(registry.claim(code, game_tx).is_ok());
    }
    let (game_tx, game_rx) = channel();
    let returned: Sender<Message> = registry.allocate(game_tx, 50).unwrap_err();
    returned.send(text("back")).unwrap();
    assert_eq!(game_rx.try_recv().ok(), Some(text("back")));
}

#[test]
fn allocation_without_draws_changes_nothing() {
    let mut registry: SessionRegistry = SessionRegistry::new();
    let (game_tx, _game_rx) = channel();
    assert!(registry.allocate(game_tx, 0).is_err());
    for code in 0..CODE_SPACE {
        assert!(!registry.is_live(code));
    }
}

#[test]
fn allocation_finds_the_one_free_code() {
    let mut registry: SessionRegistry = SessionRegistry::new();
    for code in 0..CODE_SPACE {
        if code != 63 {
            let (game_tx, _game_rx) = channel();
            assert!(registry.claim(code, game_tx).is_ok());
        }
    }
    let mut allocated: Option<u32> = None;
    while allocated.is_none() {
        let (game_tx, _game_rx) = channel();
        allocated = registry.allocate(game_tx, 100).ok();
    }
    assert_eq!(allocated, Some(63));
}

#[test]
fn a_removed_code_can_be_given_out_again() {
    let mut registry: SessionRegistry = SessionRegistry::new();
    let (first_tx, first_rx) = channel();
    let (second_tx, second_rx) = channel();
    assert!(registry.claim(7, first_tx).is_ok());
    registry.remove(7);
    assert!(!registry.is_live(7));
    assert_eq!(registry.state(7), SessionState::Closed);
    assert_eq!(registry.claim(7, second_tx).ok(), Some(7));
    assert!(registry.lookup_and_forward(7, text("again")));
    assert_eq!(second_rx.try_recv().ok(), Some(text("again")));
    assert!(first_rx.try_recv().is_err());
}

#[test]
fn removing_what_is_not_there_changes_nothing() {
    let mut registry: SessionRegistry = SessionRegistry::new();
    let (game_tx, _game_rx) = channel();
    assert!(registry.claim(8, game_tx).is_ok());
    registry.remove(9);
    registry.remove(1000);
    assert!(registry.is_live(8));
}

#[test]
fn binding_attaches_the_call_and_announces_it() {
    let mut registry: SessionRegistry = SessionRegistry::new();
    let (game_tx, game_rx) = channel();
    let (call_tx, call_rx) = channel();
    assert!(registry.claim(42, game_tx).is_ok());
    assert!(registry.bind(42, call_tx));
    assert_eq!(registry.state(42), SessionState::Bound);
    assert_eq!(game_rx.try_recv().ok(), Some(text("connected")));
    assert!(game_rx.try_recv().is_err());
    assert!(registry.forward_to_call(42, text("say this")));
    assert_eq!(call_rx.try_recv().ok(), Some(text("say this")));
    assert!(registry.lookup_and_forward(42, text("heard that")));
    assert_eq!(game_rx.try_recv().ok(), Some(text("heard that")));
}

#[test]
fn binding_to_a_stale_code_does_nothing() {
    let mut registry: SessionRegistry = SessionRegistry::new();
    let (game_tx, game_rx) = channel();
    let (call_tx, _call_rx) = channel();
    assert!(registry.claim(42, game_tx).is_ok());
    assert!(!registry.bind(43, call_tx));
    assert_eq!(registry.state(42), SessionState::Pending);
    assert_eq!(registry.state(43), SessionState::Closed);
    assert!(game_rx.try_recv().is_err());
}

#[test]
fn forwarding_to_a_stale_code_does_nothing() {
    let mut registry: SessionRegistry = SessionRegistry::new();
    let (game_tx, game_rx) = channel();
    assert!(registry.claim(42, game_tx).is_ok());
    assert!(!registry.lookup_and_forward(43, text("lost")));
    registry.remove(42);
    assert!(!registry.lookup_and_forward(42, text("lost")));
    assert!(game_rx.try_recv().is_err());
}

#[test]
fn a_pending_session_has_no_call_to_forward_to() {
    let mut registry: SessionRegistry = SessionRegistry::new();
    let (game_tx, _game_rx) = channel();
    assert!(registry.claim(42, game_tx).is_ok());
    assert!(!registry.forward_to_call(42, text("nobody")));
    assert!(!registry.forward_to_call(43, text("nobody")));
}

#[test]
fn forwarding_survives_a_receiver_that_is_gone() {
    let mut registry: SessionRegistry = SessionRegistry::new();
    let (game_tx, game_rx) = channel();
    assert!(registry.claim(42, game_tx).is_ok());
    drop(game_rx);
    assert!(registry.lookup_and_forward(42, text("into the void")));
    let (call_tx, call_rx) = channel();
    drop(call_rx);
    assert!(registry.bind(42, call_tx));
    assert!(registry.forward_to_call(42, text("into the void")));
}

#[test]
fn the_connected_signal_is_the_word_connected() {
    assert_eq!(connected_signal(), text("connected"));
}

#[test]
fn the_channels_of_a_session_can_be_looked_up() {
    let mut registry: SessionRegistry = SessionRegistry::new();
    let (game_tx, game_rx) = channel();
    let (call_tx, call_rx) = channel();
    assert!(registry.game_channel(42).is_none());
    assert!(registry.call_channel(42).is_none());
    assert!(registry.claim(42, game_tx).is_ok());
    assert!(registry.call_channel(42).is_none());
    registry.game_channel(42).unwrap().send(text("to the game")).unwrap();
    assert_eq!(game_rx.try_recv().ok(), Some(text("to the game")));
    assert!(registry.bind(42, call_tx));
    assert_eq!(game_rx.try_recv().ok(), Some(text("connected")));
    registry.call_channel(42).unwrap().send(text("to the call")).unwrap();
    assert_eq!(call_rx.try_recv().ok(), Some(text("to the call")));
    assert!(game_rx.try_recv().is_err());
    registry.remove(42);
    assert!(registry.game_channel(42).is_none());
    assert!(registry.call_channel(42).is_none());
}

#[test]
fn binding_again_replaces_the_call() {
    let mut registry: SessionRegistry = SessionRegistry::new();
    let (game_tx, game_rx) = channel();
    let (first_tx, first_rx) = channel();
    let (second_tx, second_rx) = channel();
    assert!(registry.claim(42, game_tx).is_ok());
    assert!(registry.bind(42, first_tx));
    assert!(registry.bind(42, second_tx));
    assert_eq!(game_rx.try_recv().ok(), Some(text("connected")));
    assert_eq!(game_rx.try_recv().ok(), Some(text("connected")));
    assert!(registry.forward_to_call(42, text("hello")));
    assert_eq!(second_rx.try_recv().ok(), Some(text("hello")));
    assert!(first_rx.try_recv().is_err());
}
