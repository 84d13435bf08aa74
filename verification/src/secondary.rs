//! Decisions of the secondary source element, which streams the secondary
//! output of a compositor that a primary element started in the same
//! process.
use crate::display::{FlowFailure, FrameReply, SwapFailure};
use crate::registry::{CompositorRegistry, lookup_active_compositor, lookup_compositor};
use vstd::prelude::*;

verus! {

/// The settings of the secondary element.
#[derive(Debug)]
pub struct Settings {
    /// The Wayland socket name of the primary compositor to attach to; the
    /// active compositor when unset.
    compositor_name: Option<String>,
}

/// The view of an optional string.
pub open spec fn opt_view(o: Option<String>) -> Option<Seq<char>> {
    match o {
        Some(s) => Some(s@),
        None => None,
    }
}

impl Settings {
    /// The configured compositor name.
    pub closed spec fn name(&self) -> Option<Seq<char>> {
        opt_view(self.compositor_name)
    }

    /// Settings with no compositor name.
    pub fn new() -> (s: Self)
        ensures
            s.name() is None,
    {
        Settings { compositor_name: None }
    }

    /// Sets the `compositor-name` property.
    pub fn set_compositor_name(&mut self, name: Option<String>)
        ensures
            final(self).name() == opt_view(name),
    {
        self.compositor_name = name;
    }

    /// The configured compositor name, copied.
    pub fn compositor_name(&self) -> (res: Option<String>)
        ensures
            opt_view(res) == self.name(),
    {
        match &self.compositor_name {
            Some(n) => Some(n.clone()),
            None => None,
        }
    }

    /// The value of the `compositor-name` property: the name, or the empty
    /// string when none is set.
    pub fn compositor_name_property(&self) -> (res: String)
        ensures
            res@ == match self.name() {
                Some(n) => n,
                None => Seq::<char>::empty(),
            },
    {
        match &self.compositor_name {
            Some(n) => n.clone(),
            None => String::new(),
        }
    }
}

impl Default for Settings {
    fn default() -> (s: Self)
        ensures
            s.name() is None,
    {
        Settings::new()
    }
}

/// The compositor the secondary element attaches to: the one registered
/// under the configured name, or the active compositor when no name is set.
pub fn find_compositor<'a, S>(registry: &'a CompositorRegistry<S>, name: &Option<String>) -> (res:
    Option<&'a S>)
    ensures
        match res {
            Some(s) => Some(*s) == match name {
                Some(n) => registry@.lookup(n@),
                None => registry@.lookup_active(),
            },
            None => match name {
                Some(n) => registry@.lookup(n@) is None,
                None => registry@.lookup_active() is None,
            },
        },
{
    match name {
        Some(n) => lookup_compositor(registry, n.as_str()),
        None => lookup_active_compositor(registry),
    }
}

/// How long the element waits at start for the primary compositor.
pub const CONNECT_TIMEOUT_SECS: u64 = 20;

/// How long the element sleeps between two lookups at start.
pub const CONNECT_RETRY_MILLIS: u64 = 100;

/// The error text when no compositor could be found before the deadline.
pub open spec fn spec_missing_compositor_message(name: Option<Seq<char>>) -> Seq<char> {
    match name {
        Some(n) => "Could not find compositor '"@ + n
            + "' in registry. Start the primary dual-screen app first."@,
        None => "No active compositor found. Start the primary dual-screen app first."@,
    }
}

/// Builds the error text when no compositor could be found.
pub fn missing_compositor_message(name: &Option<String>) -> (msg: String)
    ensures
        msg@ == spec_missing_compositor_message(opt_view(*name)),
{
    match name {
        Some(n) => {
            let mut msg = String::from_str("Could not find compositor '");
            msg.append(n.as_str());
            msg.append("' in registry. Start the primary dual-screen app first.");
            msg
        },
        None => String::from_str(
            "No active compositor found. Start the primary dual-screen app first.",
        ),
    }
}

/// One step of the start-up wait for the primary compositor.
#[derive(Debug, PartialEq, Eq)]
pub enum ConnectStep {
    /// The compositor was found: keep its sender and start.
    Connected,
    /// The deadline passed: fail to start with this message.
    Failed(String),
    /// Sleep `CONNECT_RETRY_MILLIS` milliseconds and look again.
    Retry,
}

/// Decides one step of the start-up wait: connect once the compositor is
/// found, fail once the deadline has passed, else look again later.
pub fn connect_step(name: &Option<String>, found: bool, deadline_passed: bool) -> (step:
    ConnectStep)
    ensures
        found ==> step is Connected,
        !found && deadline_passed ==> (step matches ConnectStep::Failed(m) && m@
            == spec_missing_compositor_message(opt_view(*name))),
        !found && !deadline_passed ==> step is Retry,
{
    if found {
        ConnectStep::Connected
    } else if deadline_passed {
        ConnectStep::Failed(missing_compositor_message(name))
    } else {
        ConnectStep::Retry
    }
}

/// One step of producing a buffer on the secondary element.
pub enum CreateStep<B> {
    /// Hand this buffer downstream.
    Deliver(B),
    /// The secondary output is not ready yet: sleep `CREATE_RETRY_MILLIS`
    /// milliseconds and ask again.
    Retry,
    /// Stop with this flow error.
    Fail(FlowFailure),
}

/// How long the element sleeps before it asks again for a frame that was
/// not ready.
pub const CREATE_RETRY_MILLIS: u64 = 5;

/// The step after one frame request of the secondary element.
pub open spec fn spec_create_step<B>(reply: Option<FrameReply<B>>) -> CreateStep<B> {
    match reply {
        None => CreateStep::Fail(FlowFailure::Eos),
        Some(FrameReply::Frame(b)) => CreateStep::Deliver(b),
        Some(FrameReply::SwapFailed(_)) => CreateStep::Retry,
        Some(FrameReply::Disconnected) => CreateStep::Fail(FlowFailure::Error),
    }
}

/// Decides what follows a frame request of the secondary element (`reply`
/// is `None` when the request could not be sent): a frame is delivered, a
/// failed render is asked again, since the secondary output may not be
/// ready yet, an unsendable request ends the stream, and a lost answer is
/// an error.
pub fn create_step<B>(reply: Option<FrameReply<B>>) -> (step: CreateStep<B>)
    ensures
        step == spec_create_step(reply),
{
    match reply {
        None => CreateStep::Fail(FlowFailure::Eos),
        Some(FrameReply::Frame(b)) => CreateStep::Deliver(b),
        Some(FrameReply::SwapFailed(_)) => CreateStep::Retry,
        Some(FrameReply::Disconnected) => CreateStep::Fail(FlowFailure::Error),
    }
}

/// A render failure never stops the secondary element: it asks again.
pub proof fn law_create_retries_render_failures<B>(reply: Option<FrameReply<B>>)
    ensures
        reply matches Some(FrameReply::SwapFailed(_)) ==> spec_create_step(reply) is Retry,
        spec_create_step(reply) is Fail ==> !(reply matches Some(FrameReply::SwapFailed(_))),
{
}

/// The outcome of a state change of an element.
#[derive(Clone, Copy, Debug, PartialEq, Eq, Structural)]
pub enum StateChangeOutcome {
    Success,
    Async,
    NoPreroll,
    Failure,
}

/// The outcome the secondary element reports for a state change, given its
/// parent class's outcome: a live source cannot preroll, so a successful
/// change to `Paused` becomes `NoPreroll`; everything else passes through.
pub fn adjust_state_change(parent: StateChangeOutcome, next_is_paused: bool) -> (res:
    StateChangeOutcome)
    ensures
        res == (if parent == StateChangeOutcome::Success && next_is_paused {
            StateChangeOutcome::NoPreroll
        } else {
            parent
        }),
{
    match parent {
        StateChangeOutcome::Success => {
            if next_is_paused {
                StateChangeOutcome::NoPreroll
            } else {
                StateChangeOutcome::Success
            }
        },
        other => other,
    }
}

/// The secondary element delivers a frame that came, ends the stream when
/// the request could not be sent, stops with an error when no answer came,
/// and asks again after any render failure.
pub proof fn law_create_step_cases<B>(b: B, failure: SwapFailure)
    ensures
        spec_create_step(Some(FrameReply::Frame(b))) matches CreateStep::Deliver(d) && d == b,
        spec_create_step::<B>(None) matches CreateStep::Fail(FlowFailure::Eos),
        spec_create_step::<B>(Some(FrameReply::Disconnected)) matches CreateStep::Fail(
            FlowFailure::Error,
        ),
        spec_create_step::<B>(Some(FrameReply::SwapFailed(failure))) is Retry,
{
}

} // verus!
