use crate::message::Message;
use crate::state::{
    free_code, pending, state_in, GameTwilioTxs, SessionRegistry, SessionState, CODE_SPACE,
};
use crate::text::{decimal_digits, decimal_string};
use crossbeam_channel::Sender;
use vstd::prelude::*;

verus! {

/// What the relay did with a message of the game client.
#[derive(Clone, Copy, Debug, PartialEq, Eq, Structural)]
pub enum Relayed {
    /// The client closed: its session was deleted.
    Removed,
    /// A text was offered to the call that is bound to the session.
    ToCall,
    /// A text was dropped, since no call is bound to the session.
    Dropped,
    /// The message was neither text nor a close: it was passed over.
    Ignored,
}

/// What the relay of the session under `code` does with a message of its
/// game client.
pub open spec fn relayed(
    sessions: Map<u32, GameTwilioTxs>,
    code: u32,
    message: Message,
) -> Relayed {
    match message {
        Message::Close => Relayed::Removed,
        Message::Text(_) => if state_in(sessions, code) == SessionState::Bound {
            Relayed::ToCall
        } else {
            Relayed::Dropped
        },
        _ => Relayed::Ignored,
    }
}

/// The part of a game session that stands between the game client and the
/// call.
pub struct GameRelay {
    code: u32,
}

impl GameRelay {
    /// The access code of the session.
    pub closed spec fn code(&self) -> u32 {
        self.code
    }

    /// Registers a session for a game client that has connected, under a
    /// code drawn as `SessionRegistry::allocate` says. `game_tx` leads to
    /// the client; it is handed back where no free code was drawn.
    pub fn connect(
        registry: &mut SessionRegistry,
        game_tx: Sender<Message>,
        max_draws: u32,
    ) -> (connected: Result<GameRelay, Sender<Message>>)
        requires
            old(registry).wf(),
        ensures
            final(registry).wf(),
            match connected {
                Ok(relay) => {
                    &&& free_code(old(registry)@, relay.code())
                    &&& final(registry)@ == old(registry)@.insert(relay.code(), pending(game_tx))
                },
                Err(returned) => {
                    &&& returned == game_tx
                    &&& final(registry)@ == old(registry)@
                },
            },
            max_draws > 0 && (forall|code: u32|
                code < CODE_SPACE ==> !old(registry)@.contains_key(code)) ==> connected is Ok,
            max_draws == 0 ==> connected is Err,
    {
        match registry.allocate(game_tx, max_draws) {
            Ok(code) => Ok(GameRelay { code }),
            Err(returned) => Err(returned),
        }
    }

    /// Registers a session for a game client under the code `draw`, as
    /// `SessionRegistry::claim` says.
    pub fn connect_with(
        registry: &mut SessionRegistry,
        draw: u32,
        game_tx: Sender<Message>,
    ) -> (connected: Result<GameRelay, Sender<Message>>)
        requires
            old(registry).wf(),
        ensures
            final(registry).wf(),
            match connected {
                Ok(relay) => {
                    &&& free_code(old(registry)@, draw)
                    &&& relay.code() == draw
                    &&& final(registry)@ == old(registry)@.insert(draw, pending(game_tx))
                },
                Err(returned) => {
                    &&& !free_code(old(registry)@, draw)
                    &&& returned == game_tx
                    &&& final(registry)@ == old(registry)@
                },
            },
    {
        match registry.claim(draw, game_tx) {
            Ok(code) => Ok(GameRelay { code }),
            Err(returned) => Err(returned),
        }
    }

    /// The access code of the session.
    pub fn access_code(&self) -> (code: u32)
        ensures
            code == self.code(),
    {
        self.code
    }

    /// What a game client is told when it has connected: the number to dial,
    /// then the access code to say, as two text messages.
    pub fn greeting(&self, phone_number: &str) -> (messages: Vec<Message>)
        ensures
            messages@.len() == 2,
            messages@[0] matches Message::Text(number) && number@ == phone_number@,
            messages@[1] matches Message::Text(code) && code@ == decimal_digits(self.code() as nat),
    {
        let mut messages: Vec<Message> = Vec::new();
        messages.push(Message::Text(String::from_str(phone_number)));
        messages.push(Message::Text(decimal_string(self.code)));
        messages
    }

    /// Takes one message of the game client.
    ///
    /// A close deletes the session. A text is offered to the call that is
    /// bound to the session, and dropped where none is. Anything else is
    /// passed over.
    pub fn on_client_message(&self, registry: &mut SessionRegistry, message: Message) -> (outcome:
        Relayed)
        requires
            old(registry).wf(),
        ensures
            final(registry).wf(),
            outcome == relayed(old(registry)@, self.code(), message),
            final(registry)@ == if message is Close {
                old(registry)@.remove(self.code())
            } else {
                old(registry)@
            },
    {
        match message {
            Message::Close => {
                registry.remove(self.code);
                Relayed::Removed
            },
            Message::Text(said) => {
                if registry.forward_to_call(self.code, Message::Text(said)) {
                    Relayed::ToCall
                } else {
                    Relayed::Dropped
                }
            },
            _ => Relayed::Ignored,
        }
    }

    /// Ends the relay when the game client is gone: its session is deleted.
    pub fn disconnect(self, registry: &mut SessionRegistry)
        requires
            old(registry).wf(),
        ensures
            final(registry).wf(),
            final(registry)@ == old(registry)@.remove(self.code()),
    {
        registry.remove(self.code);
    }
}

} // verus!
