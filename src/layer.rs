use vstd::prelude::*;

use crate::capture::MessageCapture;
use crate::level::{contains_level, Level};
use crate::report::{render_report, report_text};

verus! {

/// A report handed to the dispatch function.
pub type Message = String;

/// Watches log events and hands a report of each interesting one to a
/// dispatch function, together with a context value fixed at construction.
///
/// An event is interesting when its level is one of the capture levels
/// (exact membership) and it carries a field named `"message"`.
pub struct GenericNotificationLayer<C, D> where C: 'static, D: Fn(&C, Message) {
    capture_levels: Vec<Level>,
    config: C,
    dispatch: D,
}

impl<C, D> GenericNotificationLayer<C, D> where C: 'static, D: Fn(&C, Message) {
    /// The levels that this layer reacts to.
    pub closed spec fn levels(&self) -> Seq<Level> {
        self.capture_levels@
    }

    /// The context handed to every dispatch.
    pub closed spec fn context(&self) -> C {
        self.config
    }

    /// The dispatch function.
    pub closed spec fn dispatcher(&self) -> D {
        self.dispatch
    }

    /// Whether an event of this level, carrying `message`, is reported.
    pub open spec fn is_reported(&self, level: Level, message: Option<Seq<char>>) -> bool {
        self.levels().contains(level) && message.is_some()
    }

    /// A layer that reacts to exactly the levels in `capture_levels` and
    /// hands each report to `dispatch` together with `config`.
    pub fn new(capture_levels: Vec<Level>, config: C, dispatch: D) -> (r: Self)
        ensures
            r.levels() == capture_levels@,
            r.context() == config,
            r.dispatcher() == dispatch,
    {
        GenericNotificationLayer { capture_levels, config, dispatch }
    }

    /// The levels that this layer reacts to.
    pub fn capture_levels(&self) -> (r: &Vec<Level>)
        ensures
            r@ == self.levels(),
    {
        &self.capture_levels
    }

    /// The context handed to every dispatch.
    pub fn config(&self) -> (r: &C)
        ensures
            *r == self.context(),
    {
        &self.config
    }

    /// Whether events of this level are of interest. Nothing else about an
    /// event needs to be looked at when this is false.
    pub fn captures(&self, level: Level) -> (r: bool)
        ensures
            r == self.levels().contains(level),
    {
        contains_level(&self.capture_levels, level)
    }

    /// The report of an event with this level and target whose fields were
    /// gathered into `capture`, or `None` where the event is not reported.
    pub fn report_for(&self, level: Level, target: &str, capture: &MessageCapture) -> (r: Option<
        Message,
    >)
        ensures
            r.is_some() == self.is_reported(level, capture@.0),
            r.is_some() ==> r.unwrap()@ == report_text(target@, capture@.0.unwrap(), capture@.1),
    {
        if !self.captures(level) {
            return None;
        }
        match capture.message() {
            Some(msg) => Some(render_report(target, msg.as_str(), capture.fields())),
            None => None,
        }
    }

    /// Handles one event. Where it is reported, calls the dispatch function
    /// with the context and the report; otherwise the dispatch function is
    /// not called at all. Returns whether it was called.
    ///
    /// The dispatch function need only accept the report of this event, and
    /// only when the event is reported: that is the one call made here.
    pub fn on_event(&self, level: Level, target: &str, capture: &MessageCapture) -> (dispatched:
        bool)
        requires
            self.is_reported(level, capture@.0) ==> forall|m: Message|
                m@ == report_text(target@, capture@.0.unwrap(), capture@.1)
                    ==> #[trigger] call_requires(self.dispatcher(), (&self.context(), m)),
        ensures
            dispatched == self.is_reported(level, capture@.0),
            dispatched ==> exists|m: Message|
                m@ == report_text(target@, capture@.0.unwrap(), capture@.1) && call_ensures(
                    self.dispatcher(),
                    (&self.context(), m),
                    (),
                ),
    {
        match self.report_for(level, target, capture) {
            Some(report) => {
                assert(call_requires(self.dispatcher(), (&self.context(), report)));
                (self.dispatch)(&self.config, report);
                true
            },
            None => false,
        }
    }
}

} // verus!
