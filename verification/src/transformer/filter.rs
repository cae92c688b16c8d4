//! A transformer that keeps or drops each message by a boolean expression.

pub mod expr;

use vstd::prelude::*;

use crate::error::{Error, ErrorModel};
use expr::{eval_bool, filter_verdict};

verus! {

/// The message that the filter hands on when its condition holds.
#[derive(Debug)]
pub struct Message {}

impl Default for Message {
    fn default() -> (m: Message)
        ensures
            m == (Message {}),
    {
        Message {}
    }
}

/// Keeps the messages for which its expression holds and drops the others.
pub struct FilterTransformer {
    expression: String,
}

impl View for FilterTransformer {
    type V = Seq<char>;

    /// The filter's expression.
    closed spec fn view(&self) -> Seq<char> {
        self.expression@
    }
}

/// What the filter does with a message: `Ok(true)` keeps it, `Ok(false)`
/// drops it, and an error is passed on as it is.
pub open spec fn filter_outcome(r: Result<Option<Message>, Error>, verdict: Result<bool, ErrorModel>) -> bool {
    match (r, verdict) {
        (Ok(Some(_)), Ok(true)) => true,
        (Ok(None), Ok(false)) => true,
        (Err(e), Err(m)) => e@ == m,
        _ => false,
    }
}

impl FilterTransformer {
    /// A filter that evaluates `expression`.
    pub fn new(expression: String) -> (f: Self)
        ensures
            f@ == expression@,
    {
        Self { expression }
    }

    /// Evaluates the filter expression against the payload `value`; the
    /// event time (of whatever time type the caller keeps it in) and the
    /// keys play no part in the decision.
    pub fn apply<T>(&self, _event_time: T, value: &[u8], _keys: &[String]) -> (r: Result<Option<Message>, Error>)
        ensures
            filter_outcome(r, filter_verdict(self@, value@)),
    {
        let result = eval_bool(self.expression.as_str(), value)?;
        if result {
            Ok(Some(Message::default()))
        } else {
            Ok(None)
        }
    }
}

} // verus!
