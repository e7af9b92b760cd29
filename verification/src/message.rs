use vstd::prelude::*;

verus! {

/// A message as it travels between the legs of a bridged call, whatever
/// transport it came from.
#[derive(Clone, Debug, PartialEq, Eq)]
pub enum Message {
    Text(String),
    Binary(Vec<u8>),
    Ping(Vec<u8>),
    Pong(Vec<u8>),
    Close,
}

} // verus!
