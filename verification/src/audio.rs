use crate::encoding::{base64_decoded, decode};
use crate::text::{decimal_u32, parse_decimal_u32};
use crate::twilio_response::EventMedia;
use vstd::prelude::*;

verus! {

/// The mu-law byte that plays as silence.
pub const MULAW_SILENCE: u8 = 0xff;

/// Bytes of mu-law audio per millisecond of a call.
pub const MULAW_BYTES_PER_MS: u64 = 8;

/// Milliseconds of audio that one frame nominally carries.
pub const TWILIO_MS_PER_CHUNK: u32 = 20;

/// Bytes at which the inbound buffer is handed on in full: 400 ms of audio.
pub const FLUSH_UNIT_BYTES: usize = 3200;

/// The inbound audio of one call that has not been handed on yet, and the
/// arrival time of the last inbound frame.
pub struct BufferData {
    pub inbound_buffer: Vec<u8>,
    pub inbound_last_timestamp: u32,
}

/// What a `BufferData` holds, as plain values.
pub struct BufferView {
    pub buffer: Seq<u8>,
    pub last_timestamp: u32,
}

/// One decoded frame of call audio.
pub struct Frame {
    pub inbound: bool,
    pub timestamp: u32,
    pub payload: Seq<u8>,
}

impl View for BufferData {
    type V = BufferView;

    open spec fn view(&self) -> BufferView {
        BufferView { buffer: self.inbound_buffer@, last_timestamp: self.inbound_last_timestamp }
    }
}

/// Milliseconds of audio missing between a frame that arrived at `previous`
/// and the next one at `current`: what the gap exceeds one frame by, and
/// nothing where the gap is shorter than a frame.
pub open spec fn lost_ms(current: u32, previous: u32) -> nat {
    if current >= previous + TWILIO_MS_PER_CHUNK {
        (current - previous - TWILIO_MS_PER_CHUNK) as nat
    } else {
        0
    }
}

/// `len` bytes of silence.
pub open spec fn silence(len: nat) -> Seq<u8> {
    Seq::new(len, |i: int| MULAW_SILENCE)
}

/// The silence that stands for the audio missing between two frames.
pub open spec fn gap_silence(current: u32, previous: u32) -> Seq<u8> {
    silence(MULAW_BYTES_PER_MS as nat * lost_ms(current, previous))
}

/// The buffer after a frame is taken in and before anything is handed on.
/// A frame of another track leaves it as it is.
pub open spec fn absorb(state: BufferView, frame: Frame) -> BufferView {
    if frame.inbound {
        BufferView {
            buffer: state.buffer + gap_silence(frame.timestamp, state.last_timestamp)
                + frame.payload,
            last_timestamp: frame.timestamp,
        }
    } else {
        state
    }
}

/// Whether a buffer holds a flush unit or more.
pub open spec fn due(state: BufferView) -> bool {
    state.buffer.len() >= FLUSH_UNIT_BYTES
}

/// The buffer after a frame, once what is due has been handed on.
pub open spec fn feed_state(state: BufferView, frame: Frame) -> BufferView {
    let taken = absorb(state, frame);
    if due(taken) {
        BufferView { buffer: Seq::empty(), last_timestamp: taken.last_timestamp }
    } else {
        taken
    }
}

/// What a frame causes to be handed on: the whole buffer once it holds a
/// flush unit, and nothing before.
pub open spec fn feed_flush(state: BufferView, frame: Frame) -> Option<Seq<u8>> {
    let taken = absorb(state, frame);
    if due(taken) {
        Some(taken.buffer)
    } else {
        None
    }
}

/// The frame that a media event carries, or `None` where its payload is not
/// base64 or its timestamp is not a decimal number of 32 bits.
pub open spec fn decoded_frame(media: EventMedia) -> Option<Frame> {
    match (base64_decoded(media.payload@), decimal_u32(media.timestamp@)) {
        (Some(payload), Some(timestamp)) => Some(
            Frame { inbound: media.track@ == "inbound"@, timestamp, payload },
        ),
        _ => None,
    }
}

impl BufferData {
    /// An empty buffer at the start of a call.
    pub fn new() -> (fresh: BufferData)
        ensures
            fresh@.buffer == Seq::<u8>::empty(),
            fresh@.last_timestamp == 0,
    {
        BufferData { inbound_buffer: Vec::new(), inbound_last_timestamp: 0 }
    }

    /// Takes in one decoded frame. An inbound frame is appended behind the
    /// silence that fills the gap before it; then the whole buffer is handed
    /// on if it has reached a flush unit.
    pub fn push_frame(&mut self, inbound: bool, timestamp: u32, payload: Vec<u8>) -> (flushed:
        Option<Vec<u8>>)
        ensures
            final(self)@ == feed_state(old(self)@, Frame { inbound, timestamp, payload: payload@ }),
            match flushed {
                Some(audio) => feed_flush(
                    old(self)@,
                    Frame { inbound, timestamp, payload: payload@ },
                ) == Some(audio@),
                None => feed_flush(old(self)@, Frame { inbound, timestamp, payload: payload@ })
                    is None,
            },
    {
        if inbound {
            pad_with_silence(&mut self.inbound_buffer, timestamp, self.inbound_last_timestamp);
            let mut payload = payload;
            self.inbound_buffer.append(&mut payload);
            self.inbound_last_timestamp = timestamp;
        }
        if self.inbound_buffer.len() >= FLUSH_UNIT_BYTES {
            let mut audio: Vec<u8> = Vec::new();
            audio.append(&mut self.inbound_buffer);
            Some(audio)
        } else {
            None
        }
    }
}

/// Appends to `buffer` the silence that stands for the audio missing
/// between the frame at `previous_timestamp` and the one at
/// `current_timestamp`.
pub fn pad_with_silence(buffer: &mut Vec<u8>, current_timestamp: u32, previous_timestamp: u32)
    ensures
        final(buffer)@ == old(buffer)@ + gap_silence(current_timestamp, previous_timestamp),
{
    let time_lost: u32 = if current_timestamp < previous_timestamp || current_timestamp
        - previous_timestamp < TWILIO_MS_PER_CHUNK {
        0
    } else {
        current_timestamp - previous_timestamp - TWILIO_MS_PER_CHUNK
    };
    let wanted: u64 = MULAW_BYTES_PER_MS * (time_lost as u64);
    let mut added: u64 = 0;
    while added < wanted
        invariant
            added <= wanted,
            buffer@ == old(buffer)@ + silence(added as nat),
        decreases wanted - added,
    {
        buffer.push(MULAW_SILENCE);
        added = added + 1;
    }
}

/// Takes in one media event of a call.
///
/// The payload is decoded from base64 and the timestamp read as a decimal
/// number; where either fails the event is skipped and nothing changes.
/// Otherwise the frame is taken in as `BufferData::push_frame` says.
pub fn process_twilio_media(media: EventMedia, buffer_data: &mut BufferData) -> (flushed: Option<
    Vec<u8>,
>)
    ensures
        match decoded_frame(media) {
            Some(frame) => {
                &&& final(buffer_data)@ == feed_state(old(buffer_data)@, frame)
                &&& match flushed {
                    Some(audio) => feed_flush(old(buffer_data)@, frame) == Some(audio@),
                    None => feed_flush(old(buffer_data)@, frame) is None,
                }
            },
            None => flushed is None && *final(buffer_data) == *old(buffer_data),
        },
{
    let media_chunk = match decode(media.payload.as_str()) {
        Ok(bytes) => bytes,
        Err(_) => {
            return None;
        },
    };
    let timestamp = match parse_decimal_u32(media.timestamp.as_str()) {
        Some(value) => value,
        None => {
            return None;
        },
    };
    let inbound = media.track == String::from_str("inbound");
    buffer_data.push_frame(inbound, timestamp, media_chunk)
}

/// Largest magnitude that is encoded without clipping.
pub const MULAW_CLIP: i32 = 32635;

/// Bias added to the magnitude before the segment is looked up.
pub const MULAW_BIAS: i32 = 0x84;

/// The clipped and biased magnitude of a sample: fifteen bits in which the
/// segment and the mantissa are looked up.
///
/// The magnitude is taken without regard to the width of the sample, so the
/// most negative sample, which has no positive counterpart in sixteen bits,
/// is clipped like every other large one.
pub open spec fn ulaw_window(sample: int) -> int {
    let magnitude = if sample < 0 {
        -sample
    } else {
        sample
    };
    let clipped = if magnitude > MULAW_CLIP {
        MULAW_CLIP as int
    } else {
        magnitude
    };
    clipped + MULAW_BIAS
}

/// The segment of a window: the position of its highest set bit, counted
/// from bit seven.
pub open spec fn ulaw_segment(window: int) -> int {
    if window >= 0x4000 {
        7
    } else if window >= 0x2000 {
        6
    } else if window >= 0x1000 {
        5
    } else if window >= 0x800 {
        4
    } else if window >= 0x400 {
        3
    } else if window >= 0x200 {
        2
    } else if window >= 0x100 {
        1
    } else {
        0
    }
}

/// Two to the power `segment + 3`: the weight of the lowest mantissa bit.
pub open spec fn ulaw_step(segment: int) -> int {
    if segment == 7 {
        0x400
    } else if segment == 6 {
        0x200
    } else if segment == 5 {
        0x100
    } else if segment == 4 {
        0x80
    } else if segment == 3 {
        0x40
    } else if segment == 2 {
        0x20
    } else if segment == 1 {
        0x10
    } else {
        0x8
    }
}

/// The four bits below the highest set bit of the window.
pub open spec fn ulaw_mantissa(window: int) -> int {
    (window / ulaw_step(ulaw_segment(window))) % 16
}

/// The mu-law byte of a 16-bit linear sample: sign, segment and mantissa,
/// all bits inverted.
pub open spec fn ulaw_code(sample: int) -> int {
    let sign: int = if sample < 0 {
        0x80
    } else {
        0
    };
    let window = ulaw_window(sample);
    255 - (sign + 16 * ulaw_segment(window) + ulaw_mantissa(window))
}

/// Compands one 16-bit linear sample to its 8-bit mu-law code.
pub fn linear_to_ulaw(sample: i16) -> (code: u8)
    ensures
        code == ulaw_code(sample as int),
{
    let sign: u32 = if sample < 0 {
        0x80
    } else {
        0
    };
    // in 32 bits the most negative sample has a magnitude like any other
    let mut pcm_value: i32 = sample as i32;
    if pcm_value < 0 {
        pcm_value = -pcm_value;
    }
    if pcm_value > MULAW_CLIP {
        pcm_value = MULAW_CLIP;
    }
    pcm_value = pcm_value + MULAW_BIAS;
    let window: u32 = pcm_value as u32;
    let mut exponent: u32 = 7;
    let mut mask: u32 = 0x4000;
    assert(0x4000u32 == 0x4000u32 >> 0u32) by (bit_vector);
    while window & mask == 0
        invariant
            0x84 <= window < 0x8000,
            exponent <= 7,
            mask == 0x4000u32 >> (7 - exponent) as u32,
            window < 2 * mask,
        decreases exponent,
    {
        assert(window < mask && mask >= 0x100 && exponent >= 1 && mask >> 1 == 0x4000u32 >> (8
            - exponent) as u32 && 2 * (mask >> 1) == mask) by (bit_vector)
            requires
                window & mask == 0,
                window < 2 * mask,
                0x84 <= window,
                exponent <= 7,
                mask == 0x4000u32 >> (7 - exponent) as u32,
        ;
        exponent = exponent - 1;
        mask = mask >> 1;
    }
    assert(window >= mask && exponent == ulaw_segment(window as int) && (window >> (exponent
        + 3)) & 0x0f == (window / (8u32 << exponent)) % 16 && 8u32 << exponent == ulaw_step(
        exponent as int) && (sign | exponent << 4 | ((window >> (exponent + 3)) & 0x0f)) == sign
        + 16 * exponent + ((window >> (exponent + 3)) & 0x0f) && ((window >> (exponent + 3))
        & 0x0f) < 16) by (bit_vector)
        requires
            window & mask != 0,
            window < 2 * mask,
            exponent <= 7,
            mask == 0x4000u32 >> (7 - exponent) as u32,
            sign == 0 || sign == 0x80,
    ;
    let mantissa: u32 = (window >> (exponent + 3)) & 0x0f;
    let ulaw_value: u32 = sign | exponent << 4 | mantissa;
    (255 - ulaw_value) as u8
}

/// The linear sample that a mu-law byte stands for: the middle of the range
/// of samples that are encoded as that byte.
pub open spec fn ulaw_expand(code: int) -> int {
    let inverted = 255 - code;
    let segment = (inverted / 16) % 8;
    let mantissa = inverted % 16;
    let magnitude = (mantissa + 16) * ulaw_step(segment) + ulaw_step(segment) / 2 - MULAW_BIAS;
    if inverted >= 0x80 {
        -magnitude
    } else {
        magnitude
    }
}

/// Encoding the sample that a byte stands for gives the byte back. The one
/// byte left out is the negative zero, which stands for the same sample as
/// the positive zero.
pub proof fn lemma_expand_then_encode(code: int)
    requires
        0 <= code <= 255,
        code != 0x7f,
    ensures
        -32768 < ulaw_expand(code) < 32768,
        ulaw_code(ulaw_expand(code)) == code,
{
    let inverted = 255 - code;
    let segment = (inverted / 16) % 8;
    let mantissa = inverted % 16;
    let step = ulaw_step(segment);
    let whole = (mantissa + 16) * step;
    let window = whole + step / 2;
    assert(16 * step <= whole < 32 * step && whole + step <= 32 * step) by (nonlinear_arith)
        requires
            whole == (mantissa + 16) * step,
            0 <= mantissa <= 15,
            step > 0,
    ;
    vstd::arithmetic::div_mod::lemma_fundamental_div_mod_converse(
        window,
        step,
        mantissa + 16,
        step / 2,
    );
    let magnitude = window - MULAW_BIAS;
    assert(ulaw_expand(code) == if inverted >= 0x80 {
        -magnitude
    } else {
        magnitude
    });
    assert(ulaw_window(ulaw_expand(code)) == window);
}

/// A window of sixteen to thirty-two steps holds a whole number of steps in
/// that range, and less than a step beyond them.
proof fn lemma_steps_in_window(window: int, step: int)
    by (nonlinear_arith)
    requires
        step > 0,
        16 * step <= window < 32 * step,
    ensures
        16 <= window / step < 32,
        (window / step) * step <= window < (window / step) * step + step,
{
}

/// Expanding the code of a sample gives the sample back to within half a
/// quantisation step of its segment. Samples beyond the clipping level are
/// measured from that level.
pub proof fn lemma_encode_then_expand(sample: int)
    ensures
        ({
            let clipped = if sample > MULAW_CLIP {
                MULAW_CLIP as int
            } else if sample < -MULAW_CLIP {
                -MULAW_CLIP as int
            } else {
                sample
            };
            let step = ulaw_step(ulaw_segment(ulaw_window(sample)));
            -step <= 2 * (ulaw_expand(ulaw_code(sample)) - clipped) <= step
        }),
{
    let window = ulaw_window(sample);
    let segment = ulaw_segment(window);
    let step = ulaw_step(segment);
    let quotient = window / step;
    lemma_steps_in_window(window, step);
    let magnitude = quotient * step + step / 2 - MULAW_BIAS;
    assert(ulaw_expand(ulaw_code(sample)) == if sample < 0 {
        -magnitude
    } else {
        magnitude
    });
}

/// The 16-bit sample that two bytes stand for, the low byte first.
pub open spec fn sample_of(low: u8, high: u8) -> int {
    let unsigned = low + 256 * high;
    if unsigned >= 0x8000 {
        unsigned - 0x10000
    } else {
        unsigned
    }
}

/// The samples of raw linear audio: one for each pair of bytes, the low byte
/// first. A last byte without a partner is left out.
pub open spec fn pcm_samples(pcm: Seq<u8>) -> Seq<i16> {
    Seq::new(pcm.len() / 2, |i: int| sample_of(pcm[2 * i], pcm[2 * i + 1]) as i16)
}

/// The mu-law codes of a run of samples.
pub open spec fn ulaw_codes(samples: Seq<i16>) -> Seq<u8> {
    Seq::new(samples.len(), |i: int| ulaw_code(samples[i] as int) as u8)
}

/// Reads raw linear audio as 16-bit samples, the low byte of each first.
pub fn samples_from_pcm(pcm: &Vec<u8>) -> (samples: Vec<i16>)
    ensures
        samples@ == pcm_samples(pcm@),
{
    let count: usize = pcm.len() / 2;
    let mut samples: Vec<i16> = Vec::new();
    let mut i: usize = 0;
    while i < count
        invariant
            i <= count,
            count == pcm.len() / 2,
            samples@ == pcm_samples(pcm@).take(i as int),
        decreases count - i,
    {
        let low: i32 = pcm[2 * i] as i32;
        let high: i32 = pcm[2 * i + 1] as i32;
        let unsigned: i32 = low + 256 * high;
        let sample: i16 = if unsigned >= 0x8000 {
            (unsigned - 0x10000) as i16
        } else {
            unsigned as i16
        };
        samples.push(sample);
        i = i + 1;
    }
    samples
}

/// Compands a run of samples to mu-law, one byte a sample.
pub fn encode_samples(samples: &Vec<i16>) -> (codes: Vec<u8>)
    ensures
        codes@ == ulaw_codes(samples@),
{
    let mut codes: Vec<u8> = Vec::new();
    let mut i: usize = 0;
    while i < samples.len()
        invariant
            i <= samples.len(),
            codes@ == ulaw_codes(samples@).take(i as int),
        decreases samples.len() - i,
    {
        codes.push(linear_to_ulaw(samples[i]));
        i = i + 1;
    }
    codes
}

/// The buffer after a run of frames, each fed in turn.
pub open spec fn run_state(state: BufferView, frames: Seq<Frame>) -> BufferView
    decreases frames.len(),
{
    if frames.len() == 0 {
        state
    } else {
        feed_state(run_state(state, frames.drop_last()), frames.last())
    }
}

/// All that a run of frames caused to be handed on, flush unit after flush
/// unit.
pub open spec fn run_output(state: BufferView, frames: Seq<Frame>) -> Seq<u8>
    decreases frames.len(),
{
    if frames.len() == 0 {
        Seq::empty()
    } else {
        let before = run_state(state, frames.drop_last());
        run_output(state, frames.drop_last()) + match feed_flush(before, frames.last()) {
            Some(audio) => audio,
            None => Seq::empty(),
        }
    }
}

/// The arrival time of the last inbound frame of a run, or `last` where it
/// has none.
pub open spec fn last_inbound(last: u32, frames: Seq<Frame>) -> u32
    decreases frames.len(),
{
    if frames.len() == 0 {
        last
    } else if frames.last().inbound {
        frames.last().timestamp
    } else {
        last_inbound(last, frames.drop_last())
    }
}

/// The payload bytes of the inbound frames of a run.
pub open spec fn payload_bytes(frames: Seq<Frame>) -> nat
    decreases frames.len(),
{
    if frames.len() == 0 {
        0
    } else if frames.last().inbound {
        payload_bytes(frames.drop_last()) + frames.last().payload.len()
    } else {
        payload_bytes(frames.drop_last())
    }
}

/// The bytes of silence that the gaps of a run call for, the first gap
/// counted from `last`.
pub open spec fn padding_bytes(last: u32, frames: Seq<Frame>) -> nat
    decreases frames.len(),
{
    if frames.len() == 0 {
        0
    } else if frames.last().inbound {
        padding_bytes(last, frames.drop_last()) + MULAW_BYTES_PER_MS as nat * lost_ms(
            frames.last().timestamp,
            last_inbound(last, frames.drop_last()),
        )
    } else {
        padding_bytes(last, frames.drop_last())
    }
}

/// Whether every frame of a run is inbound and arrives at least one frame
/// length after the one before it, the first one after `last`.
pub open spec fn evenly_late(last: u32, frames: Seq<Frame>) -> bool {
    forall|i: int|
        0 <= i < frames.len() ==> {
            &&& (#[trigger] frames[i]).inbound
            &&& frames[i].timestamp >= (if i == 0 {
                last
            } else {
                frames[i - 1].timestamp
            }) + TWILIO_MS_PER_CHUNK
        }
}

/// Whether every frame of a run is inbound and arrives less than one frame
/// length after the one before it, the first one after `last`.
pub open spec fn closely_spaced(last: u32, frames: Seq<Frame>) -> bool {
    forall|i: int|
        0 <= i < frames.len() ==> {
            &&& (#[trigger] frames[i]).inbound
            &&& frames[i].timestamp < (if i == 0 {
                last
            } else {
                frames[i - 1].timestamp
            }) + TWILIO_MS_PER_CHUNK
        }
}

/// A gap of one frame length or more is padded with eight bytes for each
/// millisecond beyond the frame length; a shorter gap is not padded.
pub proof fn lemma_gap_silence_len(current: u32, previous: u32)
    ensures
        current >= previous + 20 ==> gap_silence(current, previous).len() == 8 * (current
            - previous - 20),
        current < previous + 20 ==> gap_silence(current, previous).len() == 0,
        forall|i: int|
            0 <= i < gap_silence(current, previous).len() ==> gap_silence(current, previous)[i]
                == 0xff,
{
}

/// Something is handed on exactly when the buffer with the new frame holds a
/// flush unit or more; it is then the whole buffer, and the buffer is empty
/// afterwards. Otherwise the buffer keeps all it has. Either way less than a
/// flush unit stays behind.
pub proof fn lemma_flush_when_due(state: BufferView, frame: Frame)
    ensures
        feed_flush(state, frame) is Some <==> absorb(state, frame).buffer.len()
            >= FLUSH_UNIT_BYTES,
        feed_flush(state, frame) is Some ==> feed_flush(state, frame) == Some(
            absorb(state, frame).buffer,
        ) && feed_state(state, frame).buffer.len() == 0,
        feed_flush(state, frame) is None ==> feed_state(state, frame) == absorb(state, frame),
        feed_state(state, frame).buffer.len() < FLUSH_UNIT_BYTES,
        feed_state(state, frame).last_timestamp == absorb(state, frame).last_timestamp,
{
}

/// Between the frames of a run the buffer never holds a flush unit: a flush
/// happens at the first frame with which the bytes gathered since the last
/// flush reach one.
pub proof fn lemma_run_stays_below_flush_unit(state: BufferView, frames: Seq<Frame>)
    requires
        state.buffer.len() < FLUSH_UNIT_BYTES,
    ensures
        run_state(state, frames).buffer.len() < FLUSH_UNIT_BYTES,
    decreases frames.len(),
{
    if frames.len() > 0 {
        lemma_run_stays_below_flush_unit(state, frames.drop_last());
    }
}

/// A run remembers the arrival time of its last inbound frame.
pub proof fn lemma_run_last_timestamp(state: BufferView, frames: Seq<Frame>)
    ensures
        run_state(state, frames).last_timestamp == last_inbound(state.last_timestamp, frames),
    decreases frames.len(),
{
    if frames.len() > 0 {
        lemma_run_last_timestamp(state, frames.drop_last());
    }
}

/// Nothing is lost or added by buffering: what a run handed on, together
/// with what is still buffered, has the length of what was buffered at the
/// start plus the payloads of the inbound frames plus the silence of their
/// gaps.
pub proof fn lemma_run_length(state: BufferView, frames: Seq<Frame>)
    ensures
        run_output(state, frames).len() + run_state(state, frames).buffer.len()
            == state.buffer.len() + payload_bytes(frames) + padding_bytes(
            state.last_timestamp,
            frames,
        ),
    decreases frames.len(),
{
    if frames.len() > 0 {
        lemma_run_length(state, frames.drop_last());
        lemma_run_last_timestamp(state, frames.drop_last());
    }
}

/// Where every frame arrives at least one frame length after the one before
/// it, the silence added is eight bytes for each millisecond by which each
/// gap exceeds the frame length: in all, eight bytes for each millisecond
/// between the start and the last frame, less twenty milliseconds a frame.
pub proof fn lemma_padding_of_late_frames(last: u32, frames: Seq<Frame>)
    requires
        evenly_late(last, frames),
    ensures
        last_inbound(last, frames) - last >= 20 * frames.len(),
        padding_bytes(last, frames) == 8 * (last_inbound(last, frames) - last - 20
            * frames.len()),
    decreases frames.len(),
{
    if frames.len() > 0 {
        let shorter = frames.drop_last();
        assert(evenly_late(last, shorter));
        lemma_padding_of_late_frames(last, shorter);
    }
}

/// Where every frame arrives less than one frame length after the one
/// before it, no silence is added.
pub proof fn lemma_padding_of_close_frames(last: u32, frames: Seq<Frame>)
    requires
        closely_spaced(last, frames),
    ensures
        padding_bytes(last, frames) == 0,
    decreases frames.len(),
{
    if frames.len() > 0 {
        let shorter = frames.drop_last();
        assert(closely_spaced(last, shorter));
        lemma_padding_of_close_frames(last, shorter);
    }
}

} // verus!
