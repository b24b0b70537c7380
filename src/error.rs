use vstd::prelude::*;

use vstd::string::StringExecFns;

use crate::text::{decimal_of, usize_decimal};

verus! {

/// A fatal problem with a task's configuration, found before any send.
#[derive(Clone, Debug, PartialEq, Eq)]
pub enum ConfigError {
    /// The task asks for zero sends per minute.
    ZeroFrequency,
    /// The duration text is not a time span.
    BadDuration,
    /// No task stands at the requested position.
    MissingTask { index: usize, count: usize },
}

/// A sink could not be built, so the run that asked for it cannot start.
#[derive(Clone, Debug, PartialEq, Eq)]
pub enum ConstructionError {
    /// The broker producer could not be created; the text is the broker's.
    Broker(String),
}

/// One send attempt failed; the session goes on.
#[derive(Clone, Debug, PartialEq, Eq)]
pub enum SendError {
    /// The HTTP endpoint answered outside the success range.
    Status(u16),
    /// The HTTP call did not complete (refused, timed out, unresolved).
    Transport(String),
    /// The broker did not acknowledge the message.
    Broker(String),
}

impl SendError {
    /// What went wrong, in words.
    pub open spec fn message_spec(&self) -> Seq<char> {
        match self {
            SendError::Status(s) => "HTTP: Failed to send data, status: "@ + decimal_of(*s as nat),
            SendError::Transport(t) => "HTTP: "@ + t@,
            SendError::Broker(t) => "Kafka send error: "@ + t@,
        }
    }

    /// What went wrong, in words.
    pub fn message(&self) -> (r: String)
        ensures
            r@ == self.message_spec(),
    {
        match self {
            SendError::Status(s) => {
                let mut r = String::from_str("HTTP: Failed to send data, status: ");
                let d = usize_decimal(*s as usize);
                r.append(d.as_str());
                r
            },
            SendError::Transport(t) => {
                let mut r = String::from_str("HTTP: ");
                r.append(t.as_str());
                r
            },
            SendError::Broker(t) => {
                let mut r = String::from_str("Kafka send error: ");
                r.append(t.as_str());
                r
            },
        }
    }
}

/// The answer of a one-shot trigger: the outcome of its single send, told
/// to the caller rather than only logged.
pub open spec fn trigger_reply_of(outcome: Result<(), SendError>) -> Result<Seq<char>, Seq<char>> {
    match outcome {
        Ok(()) => Ok("Message sent successfully"@),
        Err(e) => Err("Failed to send message: "@ + e.message_spec()),
    }
}

/// The answer of a one-shot trigger to its caller.
pub fn trigger_reply(outcome: &Result<(), SendError>) -> (r: Result<String, String>)
    ensures
        r is Ok <==> outcome is Ok,
        r is Ok ==> Ok::<Seq<char>, Seq<char>>(r->Ok_0@) == trigger_reply_of(*outcome),
        r is Err ==> Err::<Seq<char>, Seq<char>>(r->Err_0@) == trigger_reply_of(*outcome),
{
    match outcome {
        Ok(()) => Ok(String::from_str("Message sent successfully")),
        Err(e) => {
            let mut r = String::from_str("Failed to send message: ");
            let m = e.message();
            r.append(m.as_str());
            Err(r)
        },
    }
}

} // verus!
