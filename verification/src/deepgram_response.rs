use vstd::prelude::*;

verus! {

/// One candidate transcript of a stretch of speech.
#[derive(Clone, Debug)]
pub struct Alternative {
    pub transcript: String,
}

/// The candidate transcripts of one audio channel.
#[derive(Clone, Debug)]
pub struct Channel {
    pub alternatives: Vec<Alternative>,
}

/// One streaming result of the speech recogniser.
#[derive(Clone, Debug)]
pub struct StreamingResponse {
    pub channel: Channel,
}

impl StreamingResponse {
    /// The transcripts of the alternatives, in the order they were given.
    pub open spec fn transcripts(self) -> Seq<Seq<char>> {
        Seq::new(
            self.channel.alternatives@.len(),
            |i: int| self.channel.alternatives@[i].transcript@,
        )
    }
}

} // verus!
