use vstd::prelude::*;

verus! {

/// The event that opens a media stream and names it.
#[derive(Clone, Debug)]
pub struct EventStart {
    pub stream_sid: String,
}

/// One frame of call audio: the track it belongs to, its arrival time in
/// milliseconds since the call began, written in decimal, and its mu-law
/// samples in base64.
#[derive(Clone, Debug)]
pub struct EventMedia {
    pub track: String,
    pub timestamp: String,
    pub payload: String,
}

#[derive(Clone, Debug)]
pub enum EventType {
    Start(EventStart),
    Media(EventMedia),
}

/// An event received on the telephony leg.
#[derive(Clone, Debug)]
pub struct Event {
    pub event_type: EventType,
}

/// The audio carried by an outbound media envelope, in base64.
#[derive(Clone, Debug)]
pub struct SendingMediaPayload {
    pub payload: String,
}

/// The envelope in which audio is sent back into a call.
#[derive(Clone, Debug)]
pub struct SendingMedia {
    pub event: String,
    pub stream_sid: String,
    pub media: SendingMediaPayload,
}

impl SendingMedia {
    /// An envelope of event `media` for the stream `stream_sid`.
    pub fn new(stream_sid: String, payload: String) -> (envelope: SendingMedia)
        ensures
            envelope.event@ == "media"@,
            envelope.stream_sid == stream_sid,
            envelope.media.payload == payload,
    {
        SendingMedia {
            event: String::from_str("media"),
            stream_sid,
            media: SendingMediaPayload { payload },
        }
    }
}

} // verus!
