//! Logical protocol messages.
//!
//! One message is one unit of the framed protocol: a tag saying what kind of
//! frame it is and the payload bytes it carries. Only data messages (Text and
//! Binary) are echoed back; control messages (Ping, Pong, Close) are consumed
//! without a reply from the worker.

use vstd::prelude::*;

verus! {

/// The tag of one logical protocol message.
#[derive(Clone, Copy, PartialEq, Eq, Structural, Debug)]
pub enum MsgKind {
    Text,
    Binary,
    Ping,
    Pong,
    Close,
}

/// One logical protocol message: a tag and the payload bytes it carries.
pub struct Msg {
    pub kind: MsgKind,
    pub payload: Vec<u8>,
}

/// The mathematical value of a message: its tag and its payload as a byte
/// sequence.
#[verifier::ext_equal]
pub struct MsgView {
    pub kind: MsgKind,
    pub payload: Seq<u8>,
}

impl MsgView {
    /// Data messages are echoed back to the peer; control messages are not.
    pub open spec fn is_data(self) -> bool {
        self.kind is Text || self.kind is Binary
    }
}

impl View for Msg {
    type V = MsgView;

    open spec fn view(&self) -> MsgView {
        MsgView { kind: self.kind, payload: self.payload@ }
    }
}

impl Msg {
    pub fn is_text(&self) -> (r: bool)
        ensures
            r == (self@.kind is Text),
    {
        match self.kind {
            MsgKind::Text => true,
            _ => false,
        }
    }

    pub fn is_binary(&self) -> (r: bool)
        ensures
            r == (self@.kind is Binary),
    {
        match self.kind {
            MsgKind::Binary => true,
            _ => false,
        }
    }

    /// Whether the worker sends this message back: exactly the data messages.
    pub fn should_echo(&self) -> (r: bool)
        ensures
            r == self@.is_data(),
    {
        self.is_binary() || self.is_text()
    }
}

} // verus!
