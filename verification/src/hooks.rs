//! The hook registry's observer capability: a hook is anything that can
//! observe a log message, and what it has observed so far is part of its
//! abstract state, so contracts can say that every hook sees every message
//! in submission order.

use vstd::prelude::*;

use crate::model::LogMessage;

verus! {

/// An observer invoked after each dispatched log event. `observed` is the
/// ordered record of every message the hook has seen; observing one more
/// message appends it to that record.
pub trait LogHook: Sized {
    /// The messages this hook has observed, oldest first.
    spec fn observed(&self) -> Seq<LogMessage>;

    /// Observe one message.
    fn on_message(&mut self, message: &LogMessage)
        ensures
            final(self).observed() == old(self).observed().push(*message),
    ;
}

/// A hook that keeps every message it observes, in order.
pub struct RecordingHook {
    pub messages: Vec<LogMessage>,
}

impl RecordingHook {
    pub fn new() -> (h: Self)
        ensures
            h.observed() == Seq::<LogMessage>::empty(),
    {
        RecordingHook { messages: Vec::new() }
    }
}

impl LogHook for RecordingHook {
    open spec fn observed(&self) -> Seq<LogMessage> {
        self.messages@
    }

    fn on_message(&mut self, message: &LogMessage) {
        self.messages.push(message.clone());
    }
}

} // verus!
