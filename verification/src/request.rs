//! The generative request client's policy: what is sent, and what follows
//! from each attempt to send it. The sending itself is the caller's work.

use vstd::prelude::*;
use crate::capability::Capability;
use crate::message::{Message, MessageView};
use crate::prompt::{extend_ai_function, instruction_message};

verus! {

/// How often one request may be sent: once, and once more after a failure.
pub const MAX_ATTEMPTS: u8 = 2;

pub const BEARER_PREFIX: &'static str = "Bearer ";

/// What follows from one attempt to reach the generative backend.
#[derive(Debug, Clone, PartialEq)]
pub enum RequestVerdict {
    /// The backend answered; this is its text.
    Deliver(String),
    /// The attempt failed and the same message is to be sent once more.
    Resend,
    /// The attempt failed and no attempt is left.
    GiveUp,
}

/// Mathematical content of a [`RequestVerdict`].
pub enum RequestVerdictView {
    Deliver(Seq<char>),
    Resend,
    GiveUp,
}

impl View for RequestVerdict {
    type V = RequestVerdictView;

    open spec fn view(&self) -> RequestVerdictView {
        match self {
            RequestVerdict::Deliver(text) => RequestVerdictView::Deliver(text@),
            RequestVerdict::Resend => RequestVerdictView::Resend,
            RequestVerdict::GiveUp => RequestVerdictView::GiveUp,
        }
    }
}

/// The verdict on the attempt with the given number, counted from 1.
///
/// An answer is delivered whatever the number. A failure is followed by
/// one more attempt as long as fewer than [`MAX_ATTEMPTS`] were made.
pub open spec fn verdict_on(attempt: u8, reply: Option<Seq<char>>) -> RequestVerdictView {
    match reply {
        Some(text) => RequestVerdictView::Deliver(text),
        None => if attempt < MAX_ATTEMPTS {
            RequestVerdictView::Resend
        } else {
            RequestVerdictView::GiveUp
        },
    }
}

/// Decides what follows from the attempt with the given number, counted
/// from 1: `reply` is the backend's text, or `None` where the attempt failed.
pub fn judge_attempt(attempt: u8, reply: Option<String>) -> (verdict: RequestVerdict)
    ensures
        verdict@ == verdict_on(attempt, reply.deep_view()),
{
    match reply {
        Some(text) => RequestVerdict::Deliver(text),
        None => if attempt < MAX_ATTEMPTS {
            RequestVerdict::Resend
        } else {
            RequestVerdict::GiveUp
        },
    }
}

/// One request to the generative backend: the capability asked for, the
/// message to send and the number of the attempt that is under way.
#[derive(Debug, Clone, PartialEq)]
pub struct TaskRequest {
    pub capability: Capability,
    pub message: Message,
    pub attempts: u8,
}

/// Mathematical content of a [`TaskRequest`].
pub struct TaskRequestView {
    pub capability: Capability,
    pub message: MessageView,
    pub attempts: u8,
}

impl View for TaskRequest {
    type V = TaskRequestView;

    open spec fn view(&self) -> TaskRequestView {
        TaskRequestView {
            capability: self.capability,
            message: self.message@,
            attempts: self.attempts,
        }
    }
}

impl TaskRequestView {
    /// The request for a capability and a context, about to be sent for
    /// the first time.
    pub open spec fn first(capability: Capability, context: Seq<char>) -> TaskRequestView {
        TaskRequestView {
            capability,
            message: instruction_message(capability, context),
            attempts: 1,
        }
    }

    /// The verdict on the attempt that is under way.
    pub open spec fn verdict(self, reply: Option<Seq<char>>) -> RequestVerdictView {
        verdict_on(self.attempts, reply)
    }

    /// The request after the attempt that is under way: a failure that
    /// leaves an attempt counts one up, and nothing else changes.
    pub open spec fn settled(self, reply: Option<Seq<char>>) -> TaskRequestView {
        if self.verdict(reply) is Resend {
            TaskRequestView {
                capability: self.capability,
                message: self.message,
                attempts: (self.attempts + 1) as u8,
            }
        } else {
            self
        }
    }
}

impl TaskRequest {
    /// Prepares the request for a capability and a context. Its message is
    /// the one that the prompt composer writes, and the first attempt to
    /// send it is under way.
    pub fn new(capability: Capability, context: &str) -> (request: TaskRequest)
        ensures
            request@ == TaskRequestView::first(capability, context@),
    {
        TaskRequest { capability, message: extend_ai_function(capability, context), attempts: 1 }
    }

    /// Records the end of the attempt that is under way and says what
    /// follows. The message is never changed, so a second attempt sends
    /// what the first one sent.
    pub fn settle(&mut self, reply: Option<String>) -> (verdict: RequestVerdict)
        ensures
            verdict@ == old(self)@.verdict(reply.deep_view()),
            final(self)@ == old(self)@.settled(reply.deep_view()),
            final(self)@.message == old(self)@.message,
    {
        let verdict = judge_attempt(self.attempts, reply);
        match &verdict {
            RequestVerdict::Resend => {
                self.attempts = self.attempts + 1;
            },
            _ => {},
        }
        verdict
    }
}

/// The value of the authorization header for an API key.
pub open spec fn bearer_text(api_key: Seq<char>) -> Seq<char> {
    BEARER_PREFIX@ + api_key
}

/// Writes the value of the authorization header for an API key.
pub fn bearer_token(api_key: &str) -> (value: String)
    ensures
        value@ == bearer_text(api_key@),
{
    let mut value = String::from_str(BEARER_PREFIX);
    value.append(api_key);
    value
}

} // verus!
