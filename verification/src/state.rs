use crate::message::Message;
use crossbeam_channel::Sender;
use rand::Rng;
use std::collections::HashMap;
use vstd::prelude::*;

verus! {

broadcast use vstd::std_specs::hash::group_hash_axioms;

/// `Sender` of crossbeam-channel: the sending side of a channel. Nothing is
/// claimed of what it holds; it is only carried and handed to `try_send`.
#[verifier::external_type_specification]
#[verifier::external_body]
#[verifier::reject_recursive_types(T)]
pub struct ExSender<T>(crossbeam_channel::Sender<T>);

/// Access codes are the numbers below this bound.
pub const CODE_SPACE: u32 = 100;

/// The channels of one game session: the one that leads to the game client,
/// and, once a call is bound to the session, the one that leads to the
/// call.
pub struct GameTwilioTxs {
    pub game_tx: Sender<Message>,
    pub twilio_tx: Option<Sender<Message>>,
}

/// Where a game session stands in its life.
#[derive(Clone, Copy, Debug, PartialEq, Eq, Structural)]
pub enum SessionState {
    /// Registered, no call bound.
    Pending,
    /// A call is attached.
    Bound,
    /// Not in the registry.
    Closed,
}

/// The live game sessions, each under its access code.
pub struct SessionRegistry {
    games: HashMap<u32, GameTwilioTxs>,
}

/// The session that a registry holds for a game that waits for its call.
pub open spec fn pending(game_tx: Sender<Message>) -> GameTwilioTxs {
    GameTwilioTxs { game_tx, twilio_tx: None }
}

/// A session after the call that leads through `call_tx` is attached.
pub open spec fn attached(session: GameTwilioTxs, call_tx: Sender<Message>) -> GameTwilioTxs {
    GameTwilioTxs { game_tx: session.game_tx, twilio_tx: Some(call_tx) }
}

/// The state of the session under `code` in a map of sessions.
pub open spec fn state_in(sessions: Map<u32, GameTwilioTxs>, code: u32) -> SessionState {
    if !sessions.contains_key(code) {
        SessionState::Closed
    } else if sessions[code].twilio_tx is Some {
        SessionState::Bound
    } else {
        SessionState::Pending
    }
}

/// Whether `draw` can become the code of a new session: it is a code, and
/// no live session has it.
pub open spec fn free_code(sessions: Map<u32, GameTwilioTxs>, draw: u32) -> bool {
    draw < CODE_SPACE && !sessions.contains_key(draw)
}

/// Calls `Rng::gen_range` of the rand crate on the thread's generator, with
/// the range from zero up to and without `bound`. The call panics on an
/// empty range, so a bound of zero is left out. The number depends on
/// chance: the contract claims only that it lies in the range.
#[verifier::external_body]
fn draw_below(bound: u32) -> (draw: u32)
    requires
        bound > 0,
    ensures
        draw < bound,
{
    rand::thread_rng().gen_range(0..bound)
}

/// Calls `Sender::try_send` of crossbeam-channel, which never blocks. Whether
/// the channel takes the message depends on the receiving side, so nothing
/// is claimed of it, and a message that is not taken is dropped.
#[verifier::external_body]
fn offer(tx: &Sender<Message>, message: Message) {
    let _ = tx.try_send(message);
}

/// The signal that tells a game client that a call has been bound to its
/// session.
pub fn connected_signal() -> (signal: Message)
    ensures
        signal matches Message::Text(text) && text@ == "connected"@,
{
    Message::Text(String::from_str("connected"))
}

impl View for SessionRegistry {
    type V = Map<u32, GameTwilioTxs>;

    closed spec fn view(&self) -> Map<u32, GameTwilioTxs> {
        self.games@
    }
}

impl SessionRegistry {
    /// Whether the registry is well formed: every live session stands under
    /// a code.
    pub open spec fn wf(&self) -> bool {
        forall|code: u32| self@.contains_key(code) ==> code < CODE_SPACE
    }

    /// A registry without sessions.
    pub fn new() -> (registry: SessionRegistry)
        ensures
            registry.wf(),
            registry@ == Map::<u32, GameTwilioTxs>::empty(),
    {
        SessionRegistry { games: HashMap::new() }
    }

    /// Whether a live session has this code.
    pub fn is_live(&self, code: u32) -> (live: bool)
        ensures
            live == self@.contains_key(code),
    {
        self.games.contains_key(&code)
    }

    /// The state of the session under `code`.
    pub fn state(&self, code: u32) -> (state: SessionState)
        ensures
            state == state_in(self@, code),
    {
        match self.games.get(&code) {
            None => SessionState::Closed,
            Some(session) => {
                if session.twilio_tx.is_some() {
                    SessionState::Bound
                } else {
                    SessionState::Pending
                }
            },
        }
    }

    /// Registers a pending session under the code `draw`, if `draw` is a code
    /// that no live session has. Otherwise nothing changes and the channel
    /// is handed back.
    pub fn claim(&mut self, draw: u32, game_tx: Sender<Message>) -> (claimed: Result<
        u32,
        Sender<Message>,
    >)
        requires
            old(self).wf(),
        ensures
            final(self).wf(),
            match claimed {
                Ok(code) => {
                    &&& free_code(old(self)@, draw)
                    &&& code == draw
                    &&& final(self)@ == old(self)@.insert(draw, pending(game_tx))
                },
                Err(returned) => {
                    &&& !free_code(old(self)@, draw)
                    &&& returned == game_tx
                    &&& final(self)@ == old(self)@
                },
            },
    {
        if draw >= CODE_SPACE || self.games.contains_key(&draw) {
            return Err(game_tx);
        }
        self.games.insert(draw, GameTwilioTxs { game_tx, twilio_tx: None });
        assert forall|code: u32| self@.contains_key(code) implies code < CODE_SPACE by {
            if code != draw {
                assert(old(self)@.contains_key(code));
            }
        }
        Ok(draw)
    }

    /// Draws random codes until one is free and registers a pending session
    /// under it, giving up after `max_draws` draws.
    ///
    /// Which codes are drawn is left to chance, so all that is promised of
    /// success is that it comes where no code is taken and a draw is
    /// allowed, and of failure that it comes where no draw is allowed. What
    /// a given draw leads to is what `claim` says.
    pub fn allocate(&mut self, game_tx: Sender<Message>, max_draws: u32) -> (allocated: Result<
        u32,
        Sender<Message>,
    >)
        requires
            old(self).wf(),
        ensures
            final(self).wf(),
            match allocated {
                Ok(code) => {
                    &&& free_code(old(self)@, code)
                    &&& final(self)@ == old(self)@.insert(code, pending(game_tx))
                },
                Err(returned) => {
                    &&& returned == game_tx
                    &&& final(self)@ == old(self)@
                },
            },
            max_draws > 0 && (forall|code: u32|
                code < CODE_SPACE ==> !old(self)@.contains_key(code)) ==> allocated is Ok,
            max_draws == 0 ==> allocated is Err,
    {
        let mut held = game_tx;
        let mut left: u32 = max_draws;
        while left > 0
            invariant
                self.wf(),
                self@ == old(self)@,
                held == game_tx,
                left <= max_draws,
                left < max_draws ==> exists|code: u32|
                    code < CODE_SPACE && old(self)@.contains_key(code),
            decreases left,
        {
            let draw = draw_below(CODE_SPACE);
            match self.claim(draw, held) {
                Ok(code) => {
                    return Ok(code);
                },
                Err(returned) => {
                    held = returned;
                },
            }
            left = left - 1;
        }
        Err(held)
    }

    /// Attaches the call that leads through `call_tx` to the session under
    /// `code` and offers the game client the signal of `connected_signal`.
    /// Where no live session has the code, nothing happens.
    pub fn bind(&mut self, code: u32, call_tx: Sender<Message>) -> (bound: bool)
        requires
            old(self).wf(),
        ensures
            final(self).wf(),
            bound == old(self)@.contains_key(code),
            final(self)@ == if bound {
                old(self)@.insert(code, attached(old(self)@[code], call_tx))
            } else {
                old(self)@
            },
    {
        match self.games.remove(&code) {
            None => false,
            Some(session) => {
                let session = GameTwilioTxs { game_tx: session.game_tx, twilio_tx: Some(call_tx) };
                offer(&session.game_tx, connected_signal());
                self.games.insert(code, session);
                true
            },
        }
    }

    /// The channel that leads to the game client of the session under
    /// `code`, if there is such a session.
    pub fn game_channel(&self, code: u32) -> (channel: Option<&Sender<Message>>)
        ensures
            match channel {
                Some(game_tx) => self@.contains_key(code) && *game_tx == self@[code].game_tx,
                None => !self@.contains_key(code),
            },
    {
        match self.games.get(&code) {
            None => None,
            Some(session) => Some(&session.game_tx),
        }
    }

    /// The channel that leads to the call that is bound to the session under
    /// `code`, if there is such a session and a call is bound to it.
    pub fn call_channel(&self, code: u32) -> (channel: Option<&Sender<Message>>)
        ensures
            match channel {
                Some(call_tx) => self@.contains_key(code) && self@[code].twilio_tx == Some(
                    *call_tx,
                ),
                None => state_in(self@, code) != SessionState::Bound,
            },
    {
        match self.games.get(&code) {
            None => None,
            Some(session) => match &session.twilio_tx {
                None => None,
                Some(call_tx) => Some(call_tx),
            },
        }
    }

    /// Offers `message` to the game client of the session under `code`,
    /// through the channel of `game_channel`. Tells whether there was such a
    /// session; where there was none, nothing happens.
    pub fn lookup_and_forward(&self, code: u32, message: Message) -> (forwarded: bool)
        ensures
            forwarded == self@.contains_key(code),
    {
        match self.game_channel(code) {
            None => false,
            Some(game_tx) => {
                offer(game_tx, message);
                true
            },
        }
    }

    /// Offers `message` to the call that is bound to the session under
    /// `code`, through the channel of `call_channel`. Tells whether there
    /// was such a call; where the session is pending or gone, nothing
    /// happens.
    pub fn forward_to_call(&self, code: u32, message: Message) -> (relayed: bool)
        ensures
            relayed == (state_in(self@, code) == SessionState::Bound),
    {
        match self.call_channel(code) {
            None => false,
            Some(call_tx) => {
                offer(call_tx, message);
                true
            },
        }
    }

    /// Deletes the session under `code`, if there is one.
    pub fn remove(&mut self, code: u32)
        requires
            old(self).wf(),
        ensures
            final(self).wf(),
            final(self)@ == old(self)@.remove(code),
    {
        self.games.remove(&code);
    }
}

/// No two live sessions share a code: a session that is registered after
/// another gets a code of its own, both stand under their codes as they
/// were registered, and the sessions that were there before are as they
/// were.
pub proof fn lemma_claimed_codes_differ(
    sessions: Map<u32, GameTwilioTxs>,
    first: u32,
    first_tx: Sender<Message>,
    second: u32,
    second_tx: Sender<Message>,
)
    requires
        free_code(sessions, first),
        free_code(sessions.insert(first, pending(first_tx)), second),
    ensures
        first != second,
        ({
            let after = sessions.insert(first, pending(first_tx)).insert(
                second,
                pending(second_tx),
            );
            &&& after[first] == pending(first_tx)
            &&& after[second] == pending(second_tx)
            &&& after.dom() == sessions.dom().insert(first).insert(second)
            &&& forall|other: u32| sessions.contains_key(other) ==> after[other] == sessions[other]
        }),
{
}

/// Once a session is deleted its code is free again: the next session may
/// be registered under it.
pub proof fn lemma_removed_code_is_free(sessions: Map<u32, GameTwilioTxs>, code: u32)
    requires
        code < CODE_SPACE,
    ensures
        free_code(sessions.remove(code), code),
        forall|other: u32|
            other != code ==> (free_code(sessions.remove(code), other) <==> free_code(
                sessions,
                other,
            )),
{
}

/// A session is pending once registered, bound once a call is attached, and
/// closed once deleted.
pub proof fn lemma_session_lifecycle(
    sessions: Map<u32, GameTwilioTxs>,
    code: u32,
    game_tx: Sender<Message>,
    call_tx: Sender<Message>,
)
    requires
        free_code(sessions, code),
    ensures
        state_in(sessions, code) == SessionState::Closed,
        state_in(sessions.insert(code, pending(game_tx)), code) == SessionState::Pending,
        state_in(sessions.insert(code, attached(pending(game_tx), call_tx)), code)
            == SessionState::Bound,
        state_in(sessions.insert(code, pending(game_tx)).remove(code), code)
            == SessionState::Closed,
{
}

} // verus!
