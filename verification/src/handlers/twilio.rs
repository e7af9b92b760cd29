use crate::audio::{
    decoded_frame, encode_samples, feed_flush, feed_state, pcm_samples, process_twilio_media,
    samples_from_pcm, ulaw_codes, BufferData, BufferView,
};
use crate::deepgram_response::StreamingResponse;
use crate::encoding::{base64_encoded, encodable_len, standard_encode};
use crate::message::Message;
use crate::state::{attached, GameTwilioTxs, SessionRegistry, CODE_SPACE};
use crate::text::{chars_of, contains_chars, contains_text, decimal_chars, decimal_digits};
use crate::twilio_response::{Event, EventType, SendingMedia};
use crossbeam_channel::Sender;
use vstd::prelude::*;

verus! {

/// Whether a transcript holds the digits of `code` as a contiguous run.
pub open spec fn spoken(transcript: Seq<char>, code: u32) -> bool {
    contains_text(transcript, decimal_digits(code as nat))
}

/// The least code from `from` on that has a live session and is spoken in
/// the transcript.
pub open spec fn first_code_from(
    transcript: Seq<char>,
    sessions: Map<u32, GameTwilioTxs>,
    from: u32,
) -> Option<u32>
    decreases CODE_SPACE - from,
{
    if from >= CODE_SPACE {
        None
    } else if sessions.contains_key(from) && spoken(transcript, from) {
        Some(from)
    } else {
        first_code_from(transcript, sessions, (from + 1) as u32)
    }
}

/// The code that a list of transcripts binds a call to: the least live code
/// spoken in the first transcript that speaks any.
pub open spec fn first_code(
    transcripts: Seq<Seq<char>>,
    sessions: Map<u32, GameTwilioTxs>,
) -> Option<u32>
    decreases transcripts.len(),
{
    if transcripts.len() == 0 {
        None
    } else {
        match first_code_from(transcripts.first(), sessions, 0) {
            Some(code) => Some(code),
            None => first_code(transcripts.drop_first(), sessions),
        }
    }
}

/// The least live code that is spoken in the transcript.
fn scan_transcript(registry: &SessionRegistry, transcript: &str) -> (found: Option<u32>)
    ensures
        found == first_code_from(transcript@, registry@, 0),
{
    let heard = chars_of(transcript);
    let mut code: u32 = 0;
    while code < CODE_SPACE
        invariant
            code <= CODE_SPACE,
            heard@ == transcript@,
            first_code_from(transcript@, registry@, 0) == first_code_from(
                transcript@,
                registry@,
                code,
            ),
        decreases CODE_SPACE - code,
    {
        if registry.is_live(code) {
            let digits = decimal_chars(code);
            if contains_chars(&heard, &digits) {
                return Some(code);
            }
        }
        code = code + 1;
    }
    None
}

/// The code that a recognition result binds a call to, if it speaks one.
pub fn detect_code(registry: &SessionRegistry, response: &StreamingResponse) -> (found: Option<u32>)
    ensures
        found == first_code(response.transcripts(), registry@),
{
    let alternatives = &response.channel.alternatives;
    let ghost transcripts = response.transcripts();
    let mut i: usize = 0;
    assert(transcripts.skip(0) == transcripts);
    while i < alternatives.len()
        invariant
            i <= alternatives.len(),
            alternatives == &response.channel.alternatives,
            transcripts == response.transcripts(),
            first_code(transcripts, registry@) == first_code(transcripts.skip(i as int), registry@),
        decreases alternatives.len() - i,
    {
        let ghost rest = transcripts.skip(i as int);
        assert(rest.drop_first() == transcripts.skip(i + 1));
        match scan_transcript(registry, alternatives[i].transcript.as_str()) {
            Some(code) => {
                return Some(code);
            },
            None => {},
        }
        i = i + 1;
    }
    None
}

/// What is to be done after an event of the telephony leg.
#[derive(Debug)]
pub enum IngressAction {
    /// The stream has made itself known: hand its identifier to the part of
    /// the call that speaks.
    AnnounceStream(String),
    /// A flush unit is due: send it to the recogniser.
    ForwardAudio(Vec<u8>),
    /// Nothing.
    Idle,
}

/// The part of a call that takes in the events of the telephony leg.
pub struct CallIngress {
    buffer_data: BufferData,
    announced: bool,
}

impl CallIngress {
    /// The inbound audio that has not been handed on yet.
    pub closed spec fn buffer(&self) -> BufferView {
        self.buffer_data@
    }

    /// Whether the identifier of the stream has been handed on.
    pub closed spec fn announced(&self) -> bool {
        self.announced
    }

    /// The ingress of a new call: nothing buffered, nothing announced.
    pub fn new() -> (ingress: CallIngress)
        ensures
            ingress.buffer().buffer == Seq::<u8>::empty(),
            ingress.buffer().last_timestamp == 0,
            !ingress.announced(),
    {
        CallIngress { buffer_data: BufferData::new(), announced: false }
    }

    /// Takes one event of the telephony leg.
    ///
    /// The first start event has the identifier of the stream handed on;
    /// later ones are passed over, since it is handed on once. A media event
    /// goes into the buffer as `process_twilio_media` says, and what falls
    /// due is forwarded.
    pub fn on_event(&mut self, event: Event) -> (action: IngressAction)
        ensures
            match event.event_type {
                EventType::Start(start) => {
                    &&& final(self).buffer() == old(self).buffer()
                    &&& final(self).announced()
                    &&& match action {
                        IngressAction::AnnounceStream(stream_sid) => !old(self).announced()
                            && stream_sid == start.stream_sid,
                        IngressAction::Idle => old(self).announced(),
                        IngressAction::ForwardAudio(_) => false,
                    }
                },
                EventType::Media(media) => {
                    &&& final(self).announced() == old(self).announced()
                    &&& match decoded_frame(media) {
                        Some(frame) => {
                            &&& final(self).buffer() == feed_state(old(self).buffer(), frame)
                            &&& match action {
                                IngressAction::ForwardAudio(audio) => feed_flush(
                                    old(self).buffer(),
                                    frame,
                                ) == Some(audio@),
                                IngressAction::Idle => feed_flush(old(self).buffer(), frame)
                                    is None,
                                IngressAction::AnnounceStream(_) => false,
                            }
                        },
                        None => final(self).buffer() == old(self).buffer() && action
                            is Idle,
                    }
                },
            },
    {
        match event.event_type {
            EventType::Start(start) => {
                if self.announced {
                    IngressAction::Idle
                } else {
                    self.announced = true;
                    IngressAction::AnnounceStream(start.stream_sid)
                }
            },
            EventType::Media(media) => {
                match process_twilio_media(media, &mut self.buffer_data) {
                    Some(audio) => IngressAction::ForwardAudio(audio),
                    None => IngressAction::Idle,
                }
            },
        }
    }
}

/// The base64 text of the mu-law audio that raw linear audio is sent as.
pub open spec fn speech_payload(pcm: Seq<u8>) -> Seq<char> {
    base64_encoded(ulaw_codes(pcm_samples(pcm)))
}

/// The part of a call that speaks what the game says. It exists only once
/// the stream has made itself known, so nothing can be sent before.
pub struct SpeechDispatch {
    stream_sid: String,
}

impl SpeechDispatch {
    /// The identifier of the stream that the speech goes to.
    pub closed spec fn stream_sid(&self) -> Seq<char> {
        self.stream_sid@
    }

    /// The speaking part of the call whose stream is `stream_sid`.
    pub fn new(stream_sid: String) -> (dispatch: SpeechDispatch)
        ensures
            dispatch.stream_sid() == stream_sid@,
    {
        SpeechDispatch { stream_sid }
    }

    /// The text that a message of the game asks to have spoken: that of a
    /// text message, and none for any other.
    pub fn text_to_speak(message: Message) -> (text: Option<String>)
        ensures
            text == match message {
                Message::Text(said) => Some(said),
                _ => None,
            },
    {
        match message {
            Message::Text(said) => Some(said),
            _ => None,
        }
    }

    /// The envelope in which synthesised speech goes back into the call, or
    /// none where the synthesis failed. `synthesized` is raw linear audio,
    /// 16 bits a sample, the low byte first; it is sent as mu-law in
    /// base64.
    pub fn media_for(&self, synthesized: Option<Vec<u8>>) -> (envelope: Option<SendingMedia>)
        ensures
            match synthesized {
                Some(pcm) => {
                    &&& envelope matches Some(media)
                    &&& media.event@ == "media"@
                    &&& media.stream_sid@ == self.stream_sid()
                    &&& media.media.payload@ == speech_payload(pcm@)
                },
                None => envelope is None,
            },
    {
        match synthesized {
            None => None,
            Some(pcm) => {
                let samples = samples_from_pcm(&pcm);
                let mulaw_samples = encode_samples(&samples);
                assert(encodable_len(mulaw_samples@.len())) by {
                    let n = mulaw_samples@.len();
                    assert(2 * n <= pcm.len() <= usize::MAX);
                }
                let payload = standard_encode(&mulaw_samples);
                Some(SendingMedia::new(self.stream_sid.clone(), payload))
            },
        }
    }
}

/// Where a call stands in its life.
#[derive(Clone, Copy, Debug, PartialEq, Eq, Structural)]
pub enum CallState {
    /// No access code has been heard yet.
    Listening,
    /// The call is bound to the session under this code.
    Bound(u32),
    /// The call is over.
    Closed,
}

/// What the router did with a message of the recogniser.
#[derive(Clone, Copy, Debug, PartialEq, Eq, Structural)]
pub enum Routed {
    /// The call is listening, and the message spoke no live code.
    StillListening,
    /// The message spoke this code: the call was bound to its session, and
    /// the game client was offered the connected signal.
    BoundNow(u32),
    /// The call is bound, and the message was offered to the game client.
    Forwarded(u32),
    /// The call is bound, but its session is gone: the message was dropped.
    Dropped(u32),
    /// The call is over: the message was ignored.
    Ignored,
}

/// The code that a message of the recogniser binds a listening call to: the
/// one that its recognition result speaks, where the message is text and
/// was understood.
pub open spec fn heard_code(
    sessions: Map<u32, GameTwilioTxs>,
    message: Message,
    response: Option<StreamingResponse>,
) -> Option<u32> {
    match (message, response) {
        (Message::Text(_), Some(understood)) => first_code(understood.transcripts(), sessions),
        _ => None,
    }
}

/// The state of a call after a message of the recogniser.
pub open spec fn routed_state(
    state: CallState,
    sessions: Map<u32, GameTwilioTxs>,
    message: Message,
    response: Option<StreamingResponse>,
) -> CallState {
    match state {
        CallState::Listening => match heard_code(sessions, message, response) {
            Some(code) => CallState::Bound(code),
            None => CallState::Listening,
        },
        _ => state,
    }
}

/// The sessions after a message of the recogniser reached a call whose
/// channel is `call_tx`: a call that hears a code is attached to the
/// session under it, and nothing else changes.
pub open spec fn routed_sessions(
    state: CallState,
    call_tx: Option<Sender<Message>>,
    sessions: Map<u32, GameTwilioTxs>,
    message: Message,
    response: Option<StreamingResponse>,
) -> Map<u32, GameTwilioTxs> {
    match (state, heard_code(sessions, message, response), call_tx) {
        (CallState::Listening, Some(code), Some(tx)) => sessions.insert(
            code,
            attached(sessions[code], tx),
        ),
        _ => sessions,
    }
}

/// What the router does with a message of the recogniser.
pub open spec fn routed(
    state: CallState,
    sessions: Map<u32, GameTwilioTxs>,
    message: Message,
    response: Option<StreamingResponse>,
) -> Routed {
    match state {
        CallState::Listening => match heard_code(sessions, message, response) {
            Some(code) => Routed::BoundNow(code),
            None => Routed::StillListening,
        },
        CallState::Bound(code) => if sessions.contains_key(code) {
            Routed::Forwarded(code)
        } else {
            Routed::Dropped(code)
        },
        CallState::Closed => Routed::Ignored,
    }
}

/// The part of a call that takes what the recogniser heard and passes it on
/// to the game that the caller asked for.
pub struct TranscriptRouter {
    state: CallState,
    call_tx: Option<Sender<Message>>,
}

impl TranscriptRouter {
    /// Where the call stands.
    pub closed spec fn state(&self) -> CallState {
        self.state
    }

    /// The channel that leads to the call, as long as the router holds it.
    pub closed spec fn call_tx(&self) -> Option<Sender<Message>> {
        self.call_tx
    }

    /// Whether the router is well formed: it holds the channel of the call
    /// exactly as long as the call is listening.
    pub open spec fn wf(&self) -> bool {
        self.state() == CallState::Listening <==> self.call_tx() is Some
    }

    /// The router of a new call, which listens for a code. `call_tx` leads
    /// to the call and goes to the session that the call gets bound to.
    pub fn new(call_tx: Sender<Message>) -> (router: TranscriptRouter)
        ensures
            router.wf(),
            router.state() == CallState::Listening,
            router.call_tx() == Some(call_tx),
    {
        TranscriptRouter { state: CallState::Listening, call_tx: Some(call_tx) }
    }

    /// Where the call stands.
    pub fn current_state(&self) -> (state: CallState)
        ensures
            state == self.state(),
    {
        self.state
    }

    /// Takes one message of the recogniser, with the recognition result read
    /// from it, if it held one.
    ///
    /// A listening call is bound to the session whose code the result
    /// speaks, and stays listening where it speaks none. A bound call has
    /// the message offered to the game client of its session, or dropped
    /// where the session is gone. The message that binds a call is not
    /// itself passed on.
    pub fn route(
        &mut self,
        registry: &mut SessionRegistry,
        message: Message,
        response: Option<StreamingResponse>,
    ) -> (outcome: Routed)
        requires
            old(self).wf(),
            old(registry).wf(),
        ensures
            final(self).wf(),
            final(registry).wf(),
            final(self).state() == routed_state(
                old(self).state(),
                old(registry)@,
                message,
                response,
            ),
            final(self).state() == CallState::Listening ==> final(self).call_tx() == old(
                self,
            ).call_tx(),
            final(registry)@ == routed_sessions(
                old(self).state(),
                old(self).call_tx(),
                old(registry)@,
                message,
                response,
            ),
            outcome == routed(old(self).state(), old(registry)@, message, response),
    {
        match self.state {
            CallState::Closed => Routed::Ignored,
            CallState::Bound(code) => {
                if registry.lookup_and_forward(code, message) {
                    Routed::Forwarded(code)
                } else {
                    Routed::Dropped(code)
                }
            },
            CallState::Listening => {
                let found = match (&message, &response) {
                    (Message::Text(_), Some(understood)) => detect_code(registry, understood),
                    _ => None,
                };
                match found {
                    None => Routed::StillListening,
                    Some(code) => {
                        proof {
                            lemma_first_code_is_live(
                                response->0.transcripts(),
                                registry@,
                            );
                        }
                        match self.call_tx.take() {
                            Some(tx) => {
                                registry.bind(code, tx);
                            },
                            None => {},
                        }
                        self.state = CallState::Bound(code);
                        Routed::BoundNow(code)
                    },
                }
            },
        }
    }

    /// Ends the call. The session that the call is bound to is deleted.
    pub fn close(&mut self, registry: &mut SessionRegistry)
        requires
            old(self).wf(),
            old(registry).wf(),
        ensures
            final(self).wf(),
            final(registry).wf(),
            final(self).state() == CallState::Closed,
            final(registry)@ == match old(self).state() {
                CallState::Bound(code) => old(registry)@.remove(code),
                _ => old(registry)@,
            },
    {
        match self.state {
            CallState::Bound(code) => {
                registry.remove(code);
            },
            _ => {},
        }
        self.call_tx = None;
        self.state = CallState::Closed;
    }
}

/// The least code found from `from` on has a live session and is spoken in
/// the transcript.
pub proof fn lemma_first_code_from_is_live(
    transcript: Seq<char>,
    sessions: Map<u32, GameTwilioTxs>,
    from: u32,
)
    ensures
        first_code_from(transcript, sessions, from) matches Some(code) ==> {
            &&& from <= code < CODE_SPACE
            &&& sessions.contains_key(code)
            &&& spoken(transcript, code)
        },
    decreases CODE_SPACE - from,
{
    if from < CODE_SPACE && !(sessions.contains_key(from) && spoken(transcript, from)) {
        lemma_first_code_from_is_live(transcript, sessions, (from + 1) as u32);
    }
}

/// A code that transcripts bind a call to has a live session and is spoken
/// in one of the transcripts.
pub proof fn lemma_first_code_is_live(
    transcripts: Seq<Seq<char>>,
    sessions: Map<u32, GameTwilioTxs>,
)
    ensures
        first_code(transcripts, sessions) matches Some(code) ==> {
            &&& code < CODE_SPACE
            &&& sessions.contains_key(code)
            &&& exists|i: int| 0 <= i < transcripts.len() && spoken(#[trigger] transcripts[i], code)
        },
    decreases transcripts.len(),
{
    if transcripts.len() > 0 {
        lemma_first_code_from_is_live(transcripts.first(), sessions, 0);
        if first_code_from(transcripts.first(), sessions, 0) is None {
            lemma_first_code_is_live(transcripts.drop_first(), sessions);
            if first_code(transcripts, sessions) is Some {
                let code = first_code(transcripts, sessions)->0;
                let i = choose|i: int|
                    0 <= i < transcripts.drop_first().len() && spoken(
                        #[trigger] transcripts.drop_first()[i],
                        code,
                    );
                assert(transcripts[i + 1] == transcripts.drop_first()[i]);
            }
        } else {
            assert(spoken(transcripts[0], first_code(transcripts, sessions)->0));
        }
    }
}

/// A live code that is spoken in the transcript is found, unless a smaller
/// one is.
pub proof fn lemma_first_code_from_finds(
    transcript: Seq<char>,
    sessions: Map<u32, GameTwilioTxs>,
    from: u32,
    code: u32,
)
    requires
        from <= code < CODE_SPACE,
        sessions.contains_key(code),
        spoken(transcript, code),
    ensures
        first_code_from(transcript, sessions, from) matches Some(found) && found <= code,
    decreases CODE_SPACE - from,
{
    if !(sessions.contains_key(from) && spoken(transcript, from)) {
        lemma_first_code_from_finds(transcript, sessions, (from + 1) as u32, code);
    }
}

/// Where any transcript speaks the code of a live session, the call is
/// bound: transcripts bind to no code only where none of them speaks one.
pub proof fn lemma_first_code_finds(
    transcripts: Seq<Seq<char>>,
    sessions: Map<u32, GameTwilioTxs>,
    i: int,
    code: u32,
)
    requires
        0 <= i < transcripts.len(),
        code < CODE_SPACE,
        sessions.contains_key(code),
        spoken(transcripts[i], code),
    ensures
        first_code(transcripts, sessions) is Some,
    decreases transcripts.len(),
{
    if i == 0 {
        lemma_first_code_from_finds(transcripts.first(), sessions, 0, code);
    } else if first_code_from(transcripts.first(), sessions, 0) is None {
        lemma_first_code_finds(transcripts.drop_first(), sessions, i - 1, code);
    }
}

/// A call is bound at most once: once bound it stays bound to the same
/// code whatever is heard, and a call that is over stays so.
pub proof fn lemma_call_binds_once(
    state: CallState,
    call_tx: Option<Sender<Message>>,
    sessions: Map<u32, GameTwilioTxs>,
    message: Message,
    response: Option<StreamingResponse>,
)
    ensures
        state != CallState::Listening ==> routed_state(state, sessions, message, response)
            == state,
        state != CallState::Listening ==> routed_sessions(
            state,
            call_tx,
            sessions,
            message,
            response,
        ) == sessions,
        routed_state(state, sessions, message, response) != state ==> routed(
            state,
            sessions,
            message,
            response,
        ) is BoundNow,
{
}

} // verus!
