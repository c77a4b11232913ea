//! Control logic of the process: the startup gate that orders argument
//! checking, the privilege precondition and the load step, and the decision
//! step of the event multiplexer that turns one unit of kernel output into
//! presenter lines and a next action.
//!
//! The surrounding binary owns everything these decisions drive: reading the
//! command line, querying the effective identity, loading and attaching the
//! packet-filtering program, polling the event stream, printing lines and
//! exiting. It feeds plain values in and carries the decided action out.

use crate::codec::decode;
use crate::codec::spec_decode;
use crate::codec::ConnectionRecord;
use crate::codec::ProtocolError;
use crate::present::render;
use crate::present::render_seq;
use vstd::prelude::*;

verus! {

/// Resolved startup configuration: the operator-supplied name of the network
/// interface to instrument. Immutable after construction.
pub struct Opts {
    pub interface: String,
}

impl Opts {
    /// The interface name is required and non-empty; startup must not proceed
    /// without it.
    pub open spec fn wf(self) -> bool {
        self.interface@.len() > 0
    }
}

/// What startup decides before any kernel interaction.
pub enum StartupDecision {
    /// Missing or malformed arguments: print usage and exit non-zero, before
    /// the privilege check and before any privileged operation.
    ExitUsage,
    /// Not running with superuser-equivalent identity: report and exit
    /// non-zero, before the bytecode image is even parsed.
    ExitPrivilege,
    /// Every precondition holds: go on to load and attach.
    Proceed(Opts),
}

/// The arguments are well-formed: they parsed, help was not requested, and a
/// non-empty interface name was supplied.
pub open spec fn spec_args_valid(parse_ok: bool, help: bool, interface: Option<String>) -> bool {
    &&& parse_ok
    &&& !help
    &&& interface matches Some(i) && i@.len() > 0
}

/// Decide how startup proceeds from the command line and the process
/// identity. Malformed arguments are rejected first, so a bad command line
/// never reaches the privilege check; an unprivileged process is rejected
/// next, so it never reaches the load step.
pub fn startup_gate(parse_ok: bool, help: bool, interface: Option<String>, privileged: bool) -> (d:
    StartupDecision)
    ensures
        !spec_args_valid(parse_ok, help, interface) ==> d is ExitUsage,
        spec_args_valid(parse_ok, help, interface) && !privileged ==> d is ExitPrivilege,
        spec_args_valid(parse_ok, help, interface) && privileged ==> (d matches
            StartupDecision::Proceed(o) && o.interface == interface->Some_0 && o.wf()),
{
    if !parse_ok || help {
        return StartupDecision::ExitUsage;
    }
    let interface = match interface {
        Option::None => {
            return StartupDecision::ExitUsage;
        },
        Option::Some(i) => i,
    };
    if interface.as_str().is_empty() {
        return StartupDecision::ExitUsage;
    }
    if !privileged {
        return StartupDecision::ExitPrivilege;
    }
    StartupDecision::Proceed(Opts { interface })
}

impl StartupDecision {
    /// The process exit status the decision calls for; zero only when startup
    /// may proceed.
    pub fn exit_code(&self) -> (r: i32)
        ensures
            *self is ExitUsage ==> r == 1,
            *self is ExitPrivilege ==> r == -1,
            *self is Proceed <==> r == 0,
    {
        match self {
            StartupDecision::ExitUsage => 1,
            StartupDecision::ExitPrivilege => -1,
            StartupDecision::Proceed(_) => 0,
        }
    }
}

/// `lines` renders a decodable prefix of `records`, in arrival order: line
/// `j` is the rendering of record `j`.
pub open spec fn spec_lines_ok(channel: Seq<char>, records: Seq<Vec<u8>>, lines: Seq<String>) -> bool {
    &&& lines.len() <= records.len()
    &&& forall|j: int|
        0 <= j < lines.len() ==> (#[trigger] spec_decode(channel, records[j]@)) is Ok && lines[j]@
            == render_seq(spec_decode(channel, records[j]@)->Ok_0)
}

/// The whole outcome of one batch: every record up to the first undecodable
/// one is rendered in order, and `err` is the first decode error exactly when
/// one exists.
pub open spec fn spec_batch_outcome(
    channel: Seq<char>,
    records: Seq<Vec<u8>>,
    lines: Seq<String>,
    err: Option<ProtocolError>,
) -> bool {
    &&& spec_lines_ok(channel, records, lines)
    &&& (err is None ==> lines.len() == records.len())
    &&& (err matches Some(e) ==> lines.len() < records.len() && spec_decode(
        channel,
        records[lines.len() as int]@,
    ) == Err::<ConnectionRecord, ProtocolError>(e))
}

/// Decode and render one delivered batch, in arrival order. The rendered
/// lines cover the longest decodable prefix; the first protocol error, if
/// any, is returned beside them and ends the run.
pub fn process_batch(channel: &str, records: &Vec<Vec<u8>>) -> (r: (Vec<String>, Option<
    ProtocolError,
>))
    ensures
        spec_batch_outcome(channel@, records@, r.0@, r.1),
{
    let mut lines: Vec<String> = Vec::new();
    let n: usize = records.len();
    let mut idx: usize = 0;
    while idx < n
        invariant
            idx <= n,
            n == records@.len(),
            lines@.len() == idx,
            forall|j: int|
                0 <= j < idx ==> (#[trigger] spec_decode(channel@, records@[j]@)) is Ok
                    && lines@[j]@ == render_seq(spec_decode(channel@, records@[j]@)->Ok_0),
        decreases n - idx,
    {
        let rec = match decode(channel, records[idx].as_slice()) {
            Result::Ok(rec) => rec,
            Result::Err(e) => {
                return (lines, Option::Some(e));
            },
        };
        let line = render(&rec);
        lines.push(line);
        idx = idx + 1;
    }
    (lines, Option::None)
}

/// One unit of input to the event multiplexer.
pub enum Event {
    /// The next available batch of raw output: a channel name and the raw
    /// byte records it delivered, in arrival order.
    Batch { channel: String, records: Vec<Vec<u8>> },
    /// The output source is exhausted: the attach was torn down.
    Exhausted,
    /// The external interrupt signal arrived.
    Interrupt,
}

/// What the multiplexer does next.
#[derive(Clone, Copy, Debug, PartialEq, Eq, Structural)]
pub enum Outcome {
    /// Keep polling for the next batch.
    Continue,
    /// Stop polling; not an error.
    Stop,
    /// Orderly shutdown: tear down the attach and exit with status zero.
    ShutdownOk,
    /// A protocol error: abort the whole process, non-zero status.
    Abort(ProtocolError),
}

/// The decision of one multiplexer step: lines for the presenter to write,
/// in order, and what to do next.
pub struct StepResult {
    pub lines: Vec<String>,
    pub outcome: Outcome,
}

/// The protocol error an outcome carries, if any.
pub open spec fn spec_outcome_err(o: Outcome) -> Option<ProtocolError> {
    match o {
        Outcome::Abort(e) => Some(e),
        _ => None,
    }
}

/// One step of the event multiplexer. A batch is decoded and rendered in
/// arrival order and polling continues unless a protocol error aborts the
/// run; the interrupt signal ends the run with status zero and no further
/// presenter output; an exhausted source just stops the loop.
pub fn multiplex_step(ev: &Event) -> (r: StepResult)
    ensures
        *ev is Interrupt ==> r.lines@.len() == 0 && r.outcome == Outcome::ShutdownOk,
        *ev is Exhausted ==> r.lines@.len() == 0 && r.outcome == Outcome::Stop,
        *ev matches Event::Batch { channel, records } ==> (r.outcome is Continue || r.outcome
            is Abort) && spec_batch_outcome(channel@, records@, r.lines@, spec_outcome_err(r.outcome)),
{
    match ev {
        Event::Interrupt => StepResult { lines: Vec::new(), outcome: Outcome::ShutdownOk },
        Event::Exhausted => StepResult { lines: Vec::new(), outcome: Outcome::Stop },
        Event::Batch { channel, records } => {
            let (lines, err) = process_batch(channel.as_str(), records);
            match err {
                Option::None => StepResult { lines, outcome: Outcome::Continue },
                Option::Some(e) => StepResult { lines, outcome: Outcome::Abort(e) },
            }
        },
    }
}

impl Outcome {
    /// The process exit status an outcome calls for: zero for every orderly
    /// path, non-zero exactly for a protocol abort.
    pub fn exit_code(&self) -> (r: i32)
        ensures
            *self is Abort <==> r != 0,
            *self is ShutdownOk ==> r == 0,
    {
        match self {
            Outcome::Abort(_) => 101,
            _ => 0,
        }
    }
}


} // verus!
