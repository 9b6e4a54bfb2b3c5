use vstd::prelude::*;

verus! {

/// The failure taxonomy of one turn. Every error raised while a turn runs is
/// converted into exactly one `Error` signal on the session's channel.
#[derive(Debug, Clone, PartialEq)]
pub enum TurnError {
    /// I/O failure while calling a capability provider.
    Transport(String),
    /// Malformed multipart input or malformed tool-argument payload.
    Parse(String),
    /// Unsupported finish reason, unrecognized tool name, or an expected
    /// content field that is absent.
    Protocol(String),
    /// Publishing to a session that has no registered channel.
    Channel(String),
}

#[verifier::ext_equal]
pub ghost enum TurnErrorV {
    Transport(Seq<char>),
    Parse(Seq<char>),
    Protocol(Seq<char>),
    Channel(Seq<char>),
}

impl View for TurnError {
    type V = TurnErrorV;

    open spec fn view(&self) -> TurnErrorV {
        match self {
            TurnError::Transport(m) => TurnErrorV::Transport(m@),
            TurnError::Parse(m) => TurnErrorV::Parse(m@),
            TurnError::Protocol(m) => TurnErrorV::Protocol(m@),
            TurnError::Channel(m) => TurnErrorV::Channel(m@),
        }
    }
}

/// The human-readable message carried by an error, whatever its kind.
pub open spec fn error_message(e: TurnErrorV) -> Seq<char> {
    match e {
        TurnErrorV::Transport(m) => m,
        TurnErrorV::Parse(m) => m,
        TurnErrorV::Protocol(m) => m,
        TurnErrorV::Channel(m) => m,
    }
}

impl TurnError {
    /// The message that subscribers see in the `Error` signal for this error.
    pub fn message(&self) -> (r: &str)
        ensures
            r@ == error_message(self@),
    {
        match self {
            TurnError::Transport(m) => m.as_str(),
            TurnError::Parse(m) => m.as_str(),
            TurnError::Protocol(m) => m.as_str(),
            TurnError::Channel(m) => m.as_str(),
        }
    }
}

} // verus!
