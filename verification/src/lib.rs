//! The core of a bridge between a phone call and a game client.
//!
//! A caller's speech is transcribed by a streaming recogniser; an access code
//! spoken by the caller binds the call to a waiting game session; from then
//! on what the caller says goes to the game, and what the game answers is
//! spoken into the call. This crate holds the rules of that bridge: the
//! mu-law codec and the buffer that shapes call audio for the recogniser,
//! the registry of game sessions and their access codes, and the state
//! machines of the legs that are joined. The connections themselves are kept
//! by the program around it.

pub mod audio;
pub mod deepgram_response;
pub mod encoding;
pub mod handlers;
pub mod message;
pub mod state;
pub mod text;
pub mod twilio_response;
