use base64::Engine;
use call_bridge::audio::{encode_samples, linear_to_ulaw, samples_from_pcm};
use call_bridge::encoding::decode;
use call_bridge::handlers::twilio::SpeechDispatch;
use call_bridge::message::Message;

// The standard expansion of a mu-law byte, written here only to measure the
// encoder against it.
fn expand(code: u8) -> i32 {
    let inverted: u8 = !code;
    let sign: u8 = inverted & 0x80;
    let exponent: u32 = ((inverted >> 4) & 0x07) as u32;
    let mantissa: i32 = (inverted & 0x0f) as i32;
    let magnitude: i32 = (((mantissa << 3) + 0x84) << exponent) - 0x84;
    if sign != 0 {
        -magnitude
    } else {
        magnitude
    }
}

#[test]
fn encodes_representative_samples() {
    assert_eq!(linear_to_ulaw(0), 0xFF);
    assert_eq!(linear_to_ulaw(32767), 0x80);
    assert_eq!(linear_to_ulaw(-32768), 0x00);
    assert_eq!(linear_to_ulaw(100), 0xF2);
    assert_eq!(linear_to_ulaw(-100), 0x72);
}

#[test]
fn encodes_segment_edges() {
    // The window is the magnitude plus 132; a segment begins at each power of
    // two from 256 on.
    assert_eq!(linear_to_ulaw(123), 0xF0);
    assert_eq!(linear_to_ulaw(124), 0xEF);
    assert_eq!(linear_to_ulaw(-123), 0x70);
    assert_eq!(linear_to_ulaw(-124), 0x6F);
    assert_eq!(linear_to_ulaw(16251), 0x90);
    assert_eq!(linear_to_ulaw(16252), 0x8F);
    assert_eq!(linear_to_ulaw(1), 0xFF);
    assert_eq!(linear_to_ulaw(-1), 0x7F);
    assert_eq!(linear_to_ulaw(4), 0xFE);
}

#[test]
fn clips_large_magnitudes() {
    assert_eq!(linear_to_ulaw(32635), 0x80);
    assert_eq!(linear_to_ulaw(32636), 0x80);
    assert_eq!(linear_to_ulaw(-32635), 0x00);
    assert_eq!(linear_to_ulaw(-32767), 0x00);
    assert_eq!(linear_to_ulaw(-32768), 0x00);
    assert_eq!(linear_to_ulaw(-32634), 0x00);
    assert_eq!(linear_to_ulaw(-31612), 0x00);
    assert_eq!(linear_to_ulaw(-31611), 0x01);
}

#[test]
fn round_trip_stays_within_one_quantisation_step() {
    let samples: [i16; 9] = [0, 32767, 100, -100, 1, -1, 1000, -20000, 32635];
    for sample in samples {
        let code: u8 = linear_to_ulaw(sample);
        let exponent: u32 = (((!code) >> 4) & 0x07) as u32;
        let step: i32 = 8 << exponent;
        let clipped: i32 = (sample as i32).clamp(-32635, 32635);
        let error: i32 = (expand(code) - clipped).abs();
        assert!(error < step, "sample {} code {} error {}", sample, code, error);
    }
}

#[test]
fn re_encoding_an_expanded_code_gives_the_code_back() {
    for code in 0u8..=255 {
        // Both zero codes expand to silence, which encodes as the positive one.
        let expected: u8 = if code == 0x7F { 0xFF } else { code };
        let expanded: i32 = expand(code);
        assert_eq!(linear_to_ulaw(expanded as i16), expected);
    }
}

#[test]
fn reads_samples_low_byte_first() {
    let pcm: Vec<u8> = vec![0x64, 0x00, 0x9C, 0xFF, 0x00, 0x80, 0xFF, 0x7F, 0x01];
    assert_eq!(samples_from_pcm(&pcm), vec![100i16, -100, -32768, 32767]);
    assert_eq!(samples_from_pcm(&Vec::new()), Vec::<i16>::new());
    assert_eq!(samples_from_pcm(&vec![7u8]), Vec::<i16>::new());
}

#[test]
fn encodes_runs_of_samples() {
    let samples: Vec<i16> = vec![0, 32767, -32768, 100, -100];
    assert_eq!(encode_samples(&samples), vec![0xFFu8, 0x80, 0x00, 0xF2, 0x72]);
    assert_eq!(encode_samples(&Vec::new()), Vec::<u8>::new());
}

#[test]
fn decodes_base64() {
    assert_eq!(decode("aGVsbG8=").unwrap(), b"hello".to_vec());
    assert_eq!(decode("").unwrap(), Vec::<u8>::new());
    assert_eq!(decode("/w==").unwrap(), vec![0xFFu8]);
}

#[test]
fn rejects_malformed_base64() {
    assert!(decode("not base64!").is_err());
    assert!(decode("aGVsbG8").is_err());
    assert!(decode("aGVsbG8= ").is_err());
    assert!(decode("a").is_err());
}

#[test]
fn decode_undoes_the_standard_encoding() {
    let bytes: Vec<u8> = (0u8..=255).collect();
    let text: String = base64::engine::general_purpose::STANDARD.encode(&bytes);
    assert_eq!(decode(&text).unwrap(), bytes);
}

#[test]
fn speech_is_sent_as_base64_mulaw() {
    let dispatch: SpeechDispatch = SpeechDispatch::new("MZ123".to_string());
    let pcm: Vec<u8> = vec![0x64, 0x00, 0x9C, 0xFF];
    let envelope = dispatch.media_for(Some(pcm)).unwrap();
    assert_eq!(envelope.event, "media");
    assert_eq!(envelope.stream_sid, "MZ123");
    assert_eq!(envelope.media.payload, "8nI=");
    let silent = dispatch.media_for(Some(vec![0u8, 0])).unwrap();
    assert_eq!(silent.media.payload, "/w==");
    let empty = dispatch.media_for(Some(Vec::new())).unwrap();
    assert_eq!(empty.media.payload, "");
}

#[test]
fn failed_synthesis_sends_nothing() {
    let dispatch: SpeechDispatch = SpeechDispatch::new("MZ123".to_string());
    assert!(dispatch.media_for(None).is_none());
}

#[test]
fn only_text_is_spoken() {
    assert_eq!(
        SpeechDispatch::text_to_speak(Message::Text("go north".to_string())),
        Some("go north".to_string())
    );
    assert_eq!(SpeechDispatch::text_to_speak(Message::Binary(vec![1, 2])), None);
    assert_eq!(SpeechDispatch::text_to_speak(Message::Ping(Vec::new())), None);
    assert_eq!(SpeechDispatch::text_to_speak(Message::Close), None);
}
