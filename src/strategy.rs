//! The four payload strategies and the driver that runs one of them.

use crate::event::{get_event, is_sample_event, SyncEvent};
use crate::fanout::broadcast_base;
use tokio::sync::broadcast::Receiver;
use std::sync::Arc;
use vstd::prelude::*;

verus! {

/// How the payload is represented while it is distributed.
#[derive(Clone, Copy, Debug, PartialEq, Eq, Structural)]
pub enum Strategy {
    /// One event behind a reference-counted handle; listeners share it.
    SharedHandle,
    /// A one-byte scalar copied to every listener.
    Scalar,
    /// The whole event, cloned into every listener's own copy.
    OwnedAggregate,
    /// No channel: one independently built event per unit of work.
    Duplication,
}

/// The strategy that a name selects; any unknown name selects the owned
/// aggregate.
pub open spec fn strategy_named(name: Seq<char>) -> Strategy {
    if name == "arc"@ {
        Strategy::SharedHandle
    } else if name == "num"@ {
        Strategy::Scalar
    } else if name == "dupe"@ {
        Strategy::Duplication
    } else {
        Strategy::OwnedAggregate
    }
}

/// The label under which a strategy is reported.
pub open spec fn strategy_label(s: Strategy) -> Seq<char> {
    match s {
        Strategy::SharedHandle => "arc"@,
        Strategy::Scalar => "num u8"@,
        Strategy::Duplication => "duplicating"@,
        Strategy::OwnedAggregate => "struct"@,
    }
}

impl Strategy {
    /// Selects a strategy by name, falling back to the owned aggregate.
    pub fn from_name(name: &str) -> (r: Strategy)
        ensures
            r == strategy_named(name@),
    {
        let name = name.to_owned();
        if name == "arc".to_owned() {
            Strategy::SharedHandle
        } else if name == "num".to_owned() {
            Strategy::Scalar
        } else if name == "dupe".to_owned() {
            Strategy::Duplication
        } else {
            Strategy::OwnedAggregate
        }
    }

    /// The label under which this strategy is reported.
    pub fn label(&self) -> (r: &'static str)
        ensures
            r@ == strategy_label(*self),
    {
        match self {
            Strategy::SharedHandle => "arc",
            Strategy::Scalar => "num u8",
            Strategy::Duplication => "duplicating",
            Strategy::OwnedAggregate => "struct",
        }
    }
}

/// The scalar that the scalar strategy distributes.
pub const SCALAR_PAYLOAD: u8 = 2;

/// The repeat count used when none is given.
pub const DEFAULT_REPEAT: usize = 10;

/// Shared-handle strategy: one sample event behind an `Arc`, published to
/// `times` subscribers, each of which receives a clone of the handle.
pub fn broadcast_arc(times: usize) -> (r: (Vec<Receiver<Arc<SyncEvent>>>, usize))
    ensures
        r.0@.len() == times,
        times == 0 ==> r.1 == 0,
{
    let event_data = get_event();
    broadcast_base(Arc::new(event_data), times)
}

/// Owned-aggregate strategy: the sample event itself, published to `times`
/// subscribers, each of which receives its own deep copy.
pub fn broadcast_struct(times: usize) -> (r: (Vec<Receiver<SyncEvent>>, usize))
    ensures
        r.0@.len() == times,
        times == 0 ==> r.1 == 0,
{
    let event_data = get_event();
    broadcast_base(event_data, times)
}

/// Scalar strategy: `SCALAR_PAYLOAD`, published to `times` subscribers.
pub fn broadcast_num(times: usize) -> (r: (Vec<Receiver<u8>>, usize))
    ensures
        r.0@.len() == times,
        times == 0 ==> r.1 == 0,
{
    let broadcast_data: u8 = SCALAR_PAYLOAD;
    broadcast_base(broadcast_data, times)
}

/// Duplication strategy: no channel; `times` sample events, each built on its
/// own. The reported listener count is `times` by convention, so that all
/// strategies report alike.
pub fn dupe_struct(times: usize) -> (r: (Vec<SyncEvent>, usize))
    ensures
        r.0@.len() == times,
        forall|i: int| 0 <= i < times ==> is_sample_event(#[trigger] r.0@[i]),
        r.1 == times,
{
    let mut events: Vec<SyncEvent> = Vec::new();
    let mut a: usize = 0;
    while a < times
        invariant
            a <= times,
            events@.len() == a,
            forall|i: int| 0 <= i < a ==> is_sample_event(#[trigger] events@[i]),
        decreases times - a,
    {
        events.push(get_event());
        a += 1;
    }
    (events, times)
}

/// What a run hands over for its listeners to work on: the subscriber
/// handles of a broadcast strategy, or the duplicated events.
pub enum Listeners {
    Shared(Vec<Receiver<Arc<SyncEvent>>>),
    Scalar(Vec<Receiver<u8>>),
    Owned(Vec<Receiver<SyncEvent>>),
    Duplicated(Vec<SyncEvent>),
}

/// The number of listeners that `l` holds work for.
pub open spec fn listener_count(l: Listeners) -> nat {
    match l {
        Listeners::Shared(v) => v@.len(),
        Listeners::Scalar(v) => v@.len(),
        Listeners::Owned(v) => v@.len(),
        Listeners::Duplicated(v) => v@.len(),
    }
}

/// `l` is the kind of work that strategy `s` produces.
pub open spec fn fits_strategy(l: Listeners, s: Strategy) -> bool {
    match s {
        Strategy::SharedHandle => l is Shared,
        Strategy::Scalar => l is Scalar,
        Strategy::OwnedAggregate => l is Owned,
        Strategy::Duplication => l is Duplicated,
    }
}

/// One run of the benchmark: the strategy that ran, the work handed to its
/// listeners, and the number of listeners it reports as served.
pub struct Run {
    pub strategy: Strategy,
    pub listeners: Listeners,
    pub served: usize,
}

/// Runs `strategy` for `times` listeners: exactly one of the four variants.
/// Every strategy hands out work for exactly `times` listeners; the
/// duplication strategy reports `times` as served, each of its events being
/// the sample event, and a run for no listeners reports none.
pub fn run(strategy: Strategy, times: usize) -> (r: Run)
    ensures
        r.strategy == strategy,
        fits_strategy(r.listeners, strategy),
        listener_count(r.listeners) == times,
        strategy == Strategy::Duplication ==> r.served == times,
        times == 0 ==> r.served == 0,
        r.listeners matches Listeners::Duplicated(v) ==> forall|i: int|
            0 <= i < v@.len() ==> is_sample_event(#[trigger] v@[i]),
{
    match strategy {
        Strategy::SharedHandle => {
            let (handles, served) = broadcast_arc(times);
            Run { strategy, listeners: Listeners::Shared(handles), served }
        },
        Strategy::Scalar => {
            let (handles, served) = broadcast_num(times);
            Run { strategy, listeners: Listeners::Scalar(handles), served }
        },
        Strategy::Duplication => {
            let (events, served) = dupe_struct(times);
            Run { strategy, listeners: Listeners::Duplicated(events), served }
        },
        Strategy::OwnedAggregate => {
            let (handles, served) = broadcast_struct(times);
            Run { strategy, listeners: Listeners::Owned(handles), served }
        },
    }
}

/// `s` is a non-empty run of ASCII decimal digits.
pub open spec fn is_digits(s: Seq<char>) -> bool {
    s.len() > 0 && forall|i: int| 0 <= i < s.len() ==> '0' <= #[trigger] s[i] && s[i] <= '9'
}

/// The number that the decimal digits `s` spell.
pub open spec fn digits_value(s: Seq<char>) -> int
    decreases s.len(),
{
    if s.len() == 0 {
        0
    } else {
        digits_value(s.drop_last()) * 10 + (s.last() as int - '0' as int)
    }
}

/// What `s` reads as a `usize`: an optional `+`, then decimal digits whose
/// value fits; anything else (whitespace, a sign alone, overflow) reads as
/// nothing.
pub open spec fn usize_text(s: Seq<char>) -> Option<usize> {
    let d = if s.len() > 0 && s[0] == '+' {
        s.drop_first()
    } else {
        s
    };
    if is_digits(d) && digits_value(d) <= usize::MAX {
        Some(digits_value(d) as usize)
    } else {
        None
    }
}

/// Relies on `str::parse::<usize>` (`usize::from_str`): an optional `+`
/// followed by decimal digits only, and an error on overflow.
#[verifier::external_body]
fn parse_usize(s: &str) -> (r: Option<usize>)
    ensures
        r == usize_text(s@),
{
    s.parse::<usize>().ok()
}

/// The repeat count that an optional argument asks for: `DEFAULT_REPEAT`
/// when absent, its decimal value when well formed, nothing otherwise.
pub fn repeat_count(arg: Option<&str>) -> (r: Option<usize>)
    ensures
        arg is None ==> r == Some(DEFAULT_REPEAT),
        arg matches Some(s) ==> r == usize_text(s@),
{
    match arg {
        None => Some(DEFAULT_REPEAT),
        Some(s) => parse_usize(s),
    }
}

} // verus!
