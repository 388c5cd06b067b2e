//! Delivery of finished text to an output sink, behind a switch.
//!
//! The switch and the sink are held in a `Logger` that the caller owns and passes to each
//! function. The logger keeps a ghost record of what it has handed to its sinks. The
//! record is the logger's own account: it is written beside each call of a sink and is not
//! checked against the sink, which is the caller's code.

use vstd::prelude::*;

verus! {

/// One message as it is handed to a sink.
pub enum Emission {
    /// A complete block, which the sink follows with a blank line.
    Block(Seq<char>),
    /// A line that is followed by no blank line.
    Line(Seq<char>),
}

/// A destination for finished text. What a sink does with a message is its own affair.
pub trait OutputSink: Send + Sync {
    /// Takes a complete block, to be followed by a blank line.
    fn emit(&self, message: &str);

    /// Takes a line that is followed by no blank line.
    fn emit_line(&self, message: &str);
}

/// The logging switch and the sink that messages go to, if one is set.
pub struct Logger<S: OutputSink> {
    disabled: bool,
    sink: Option<S>,
    sent: Ghost<Seq<Emission>>,
}

impl<S: OutputSink> Logger<S> {
    /// Whether logging is switched on.
    pub closed spec fn enabled(self) -> bool {
        !self.disabled
    }

    /// The sink in use.
    pub closed spec fn sink(self) -> Option<S> {
        self.sink
    }

    /// Everything that the logger has handed to a sink, the oldest first. This is the
    /// logger's own account, not checked against what a sink received or did.
    pub closed spec fn sent(self) -> Seq<Emission> {
        self.sent@
    }

    /// Whether a message that is logged now is handed to a sink.
    pub open spec fn delivers(self) -> bool {
        self.enabled() && self.sink() is Some
    }

    /// Makes a logger with logging switched on, no sink, and nothing sent.
    pub fn new() -> (r: Self)
        ensures
            r.enabled(),
            r.sink() is None,
            r.sent() == Seq::<Emission>::empty(),
    {
        Logger { disabled: false, sink: None, sent: Ghost(Seq::empty()) }
    }
}

/// Switches logging off.
pub fn disable_logging<S: OutputSink>(logger: &mut Logger<S>)
    ensures
        !final(logger).enabled(),
        final(logger).sink() == old(logger).sink(),
        final(logger).sent() == old(logger).sent(),
{
    logger.disabled = true;
}

/// Switches logging on again.
pub fn enable_logging<S: OutputSink>(logger: &mut Logger<S>)
    ensures
        final(logger).enabled(),
        final(logger).sink() == old(logger).sink(),
        final(logger).sent() == old(logger).sent(),
{
    logger.disabled = false;
}

/// Whether logging is switched on.
pub fn is_logging_enabled<S: OutputSink>(logger: &Logger<S>) -> (r: bool)
    ensures
        r == logger.enabled(),
{
    !logger.disabled
}

/// Sets the sink, in place of the one in use if there is one.
pub fn set_output_sink<S: OutputSink>(logger: &mut Logger<S>, sink: S)
    ensures
        final(logger).sink() == Some(sink),
        final(logger).enabled() == old(logger).enabled(),
        final(logger).sent() == old(logger).sent(),
{
    logger.sink = Some(sink);
}

/// The sink in use.
pub fn get_output_sink<S: OutputSink>(logger: &Logger<S>) -> (r: Option<&S>)
    ensures
        match r {
            Some(sink) => logger.sink() == Some(*sink),
            None => logger.sink() is None,
        },
{
    logger.sink.as_ref()
}

/// Removes the sink.
pub fn reset_output_sink<S: OutputSink>(logger: &mut Logger<S>)
    ensures
        final(logger).sink() is None,
        final(logger).enabled() == old(logger).enabled(),
        final(logger).sent() == old(logger).sent(),
{
    logger.sink = None;
}

/// Hands `message` to the sink as a complete block. Nothing happens when logging is
/// switched off or no sink is set. The contract speaks of the logger's own record of the
/// handing over; what the sink does with the message is not part of it.
pub fn log_event<S: OutputSink>(logger: &mut Logger<S>, message: &str)
    ensures
        final(logger).enabled() == old(logger).enabled(),
        final(logger).sink() == old(logger).sink(),
        final(logger).sent() == if old(logger).delivers() {
            old(logger).sent().push(Emission::Block(message@))
        } else {
            old(logger).sent()
        },
{
    if logger.disabled {
        return ;
    }
    match &logger.sink {
        Some(sink) => {
            sink.emit(message);
            proof {
                logger.sent@ = logger.sent@.push(Emission::Block(message@));
            }
        },
        None => {},
    }
}

/// Hands `message` to the sink as a line. Nothing happens when logging is switched off or
/// no sink is set. The contract speaks of the logger's own record of the handing over; what
/// the sink does with the message is not part of it.
pub fn log_event_line<S: OutputSink>(logger: &mut Logger<S>, message: &str)
    ensures
        final(logger).enabled() == old(logger).enabled(),
        final(logger).sink() == old(logger).sink(),
        final(logger).sent() == if old(logger).delivers() {
            old(logger).sent().push(Emission::Line(message@))
        } else {
            old(logger).sent()
        },
{
    if logger.disabled {
        return ;
    }
    match &logger.sink {
        Some(sink) => {
            sink.emit_line(message);
            proof {
                logger.sent@ = logger.sent@.push(Emission::Line(message@));
            }
        },
        None => {},
    }
}

} // verus!
