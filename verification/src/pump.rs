//! The message pump: the retry engine at the centre of the bridge.
//!
//! The pump consumes inbound messages strictly one at a time. For each
//! message it drives one exchange after another: a success emits the
//! response lines and moves on; a retryable failure waits for the current
//! backoff (doubling it, capped at the configured ceiling, each time the
//! wait runs to completion) and retries the same message; a fatal failure
//! emits one synthetic error envelope and abandons the message; a shutdown
//! that preempts a backoff wait emits one shutdown envelope and ends the
//! pump for good.
//!
//! The waiting itself, the exchanges and the queues are outside work; the
//! pump's decisions are all here, as a state machine whose every step has
//! an exact contract.

use vstd::prelude::*;
use vstd::string::StringExecFns;

use crate::envelope::{envelope_spec, error_envelope};
use crate::transport::TransportOutcome;

verus! {

/// The backoff applied before the first retry of a message, in
/// milliseconds.
pub const INITIAL_BACKOFF_MS: u64 = 500;

/// The text carried by the envelope that reports a shutdown preempting a
/// retry wait.
pub open spec fn shutdown_text() -> Seq<char> {
    "bridge shutdown during retry"@
}

/// The text carried by the envelope that reports a fatal transport
/// failure described by `detail`.
pub open spec fn fatal_text(detail: Seq<char>) -> Seq<char> {
    "bridge transport error: "@ + detail
}

/// The envelope reporting a shutdown that preempted a retry wait.
pub fn shutdown_envelope() -> (r: String)
    ensures
        r@ == envelope_spec(shutdown_text()),
{
    error_envelope("bridge shutdown during retry")
}

/// The envelope reporting a fatal transport failure.
pub fn fatal_envelope(detail: &str) -> (r: String)
    ensures
        r@ == envelope_spec(fatal_text(detail@)),
{
    let mut m = String::from_str("bridge transport error: ");
    m.append(detail);
    error_envelope(m.as_str())
}

/// What the pump asks its surroundings to do after a step.
pub enum PumpAction {
    /// Emit these lines in order, then fetch the next message.
    EmitLines(Vec<String>),
    /// Wait this many milliseconds (or until shutdown fires), then retry
    /// the same message.
    Wait(u64),
    /// Emit this envelope, abandon the current message, and fetch the
    /// next one.
    EmitEnvelope(String),
}

/// The pump's state: the backoff to apply before the next retry of the
/// current message, whether a retry wait is in progress, and whether the
/// pump has terminated.
pub struct Pump {
    pub backoff_ms: u64,
    pub waiting: bool,
    pub finished: bool,
}

impl Pump {
    pub fn new() -> (p: Pump)
        ensures
            p.backoff_ms == INITIAL_BACKOFF_MS,
            !p.waiting,
            !p.finished,
    {
        Pump { backoff_ms: INITIAL_BACKOFF_MS, waiting: false, finished: false }
    }

    /// A message has been taken from the inbound queue. It is processed
    /// only if the pump is still running and shutdown has not fired; a
    /// message arriving after shutdown is dropped with no output and the
    /// pump terminates. The retry state is never carried over from an
    /// earlier message: processing starts at the initial backoff.
    pub fn accept_message(&mut self, shutdown_fired: bool) -> (process: bool)
        requires
            !old(self).waiting,
        ensures
            process == (!old(self).finished && !shutdown_fired),
            final(self).finished == (old(self).finished || shutdown_fired),
            !final(self).waiting,
            final(self).backoff_ms == INITIAL_BACKOFF_MS,
    {
        self.backoff_ms = INITIAL_BACKOFF_MS;
        if shutdown_fired {
            self.finished = true;
        }
        !self.finished
    }

    /// One exchange for the current message has finished. A success
    /// resets the backoff and emits the payload lines; a retryable
    /// failure starts a wait for the current backoff; a fatal failure
    /// emits exactly one error envelope and abandons the message without
    /// any retry, and the pump goes on to the next message.
    pub fn on_outcome(&mut self, outcome: TransportOutcome) -> (a: PumpAction)
        requires
            !old(self).finished,
            !old(self).waiting,
        ensures
            final(self).finished == old(self).finished,
            (outcome matches TransportOutcome::Success(lines) ==> {
                &&& a == PumpAction::EmitLines(lines)
                &&& final(self).backoff_ms == INITIAL_BACKOFF_MS
                &&& !final(self).waiting
            }),
            (outcome matches TransportOutcome::RetryableFailure(_) ==> {
                &&& a == PumpAction::Wait(old(self).backoff_ms)
                &&& final(self).backoff_ms == old(self).backoff_ms
                &&& final(self).waiting
            }),
            (outcome matches TransportOutcome::FatalFailure(d) ==> {
                &&& a matches PumpAction::EmitEnvelope(env) && env@ == envelope_spec(
                    fatal_text(d@),
                )
                &&& final(self).backoff_ms == old(self).backoff_ms
                &&& !final(self).waiting
            }),
    {
        match outcome {
            TransportOutcome::Success(lines) => {
                self.backoff_ms = INITIAL_BACKOFF_MS;
                PumpAction::EmitLines(lines)
            },
            TransportOutcome::RetryableFailure(_) => {
                self.waiting = true;
                PumpAction::Wait(self.backoff_ms)
            },
            TransportOutcome::FatalFailure(d) => {
                PumpAction::EmitEnvelope(fatal_envelope(d.as_str()))
            },
        }
    }

    /// A retry wait ran to completion: the backoff doubles, capped at the
    /// ceiling, and the same message is tried again.
    pub fn on_wait_elapsed(&mut self, max_backoff_ms: u64)
        requires
            !old(self).finished,
            old(self).waiting,
        ensures
            final(self).backoff_ms == vstd::math::min(
                2 * old(self).backoff_ms as int,
                max_backoff_ms as int,
            ),
            !final(self).waiting,
            !final(self).finished,
    {
        self.waiting = false;
        if self.backoff_ms <= max_backoff_ms / 2 {
            self.backoff_ms = self.backoff_ms * 2;
        } else {
            self.backoff_ms = max_backoff_ms;
        }
    }

    /// Shutdown fired while a retry wait was in progress: the pump emits
    /// exactly one shutdown envelope and terminates; no further message
    /// is processed.
    pub fn on_shutdown_during_wait(&mut self) -> (env: String)
        requires
            !old(self).finished,
            old(self).waiting,
        ensures
            env@ == envelope_spec(shutdown_text()),
            final(self).finished,
            !final(self).waiting,
    {
        self.waiting = false;
        self.finished = true;
        shutdown_envelope()
    }
}

/// Two to the power `n`.
pub open spec fn pow2(n: nat) -> int
    decreases n,
{
    if n == 0 {
        1
    } else {
        2 * pow2((n - 1) as nat)
    }
}

/// The wait applied before retry `n` of one message, counting from zero,
/// when every attempt so far failed retryably: the initial backoff,
/// doubled after each completed wait and capped at the ceiling.
pub open spec fn nth_wait(initial: int, ceiling: int, n: nat) -> int
    decreases n,
{
    if n == 0 {
        initial
    } else {
        vstd::math::min(2 * nth_wait(initial, ceiling, (n - 1) as nat), ceiling)
    }
}

pub proof fn lemma_pow2_pos(n: nat)
    ensures
        pow2(n) >= 1,
    decreases n,
{
    if n > 0 {
        lemma_pow2_pos((n - 1) as nat);
    }
}

/// After a run of consecutive retryable failures the waits form the
/// sequence initial, 2 x initial, 4 x initial, ... capped at the ceiling:
/// the wait before retry `n` is `initial * 2^n`, or the ceiling where
/// that is larger.
pub proof fn lemma_backoff_progression(initial: int, ceiling: int, n: nat)
    requires
        0 < initial,
        0 <= ceiling,
        n >= 1,
    ensures
        nth_wait(initial, ceiling, n) == vstd::math::min(initial * pow2(n), ceiling),
    decreases n,
{
    lemma_pow2_pos(n);
    if n == 1 {
        assert(pow2(0) == 1);
        assert(pow2(1) == 2 * pow2(0));
        assert(initial * pow2(n) == 2 * initial) by (nonlinear_arith)
            requires
                pow2(n) == 2,
        ;
        assert(nth_wait(initial, ceiling, 0) == initial);
        assert(nth_wait(initial, ceiling, 1) == vstd::math::min(
            2 * nth_wait(initial, ceiling, 0),
            ceiling,
        ));
    } else {
        lemma_backoff_progression(initial, ceiling, (n - 1) as nat);
        lemma_pow2_pos((n - 1) as nat);
        assert(initial * pow2((n - 1) as nat) >= 1) by (nonlinear_arith)
            requires
                0 < initial,
                pow2((n - 1) as nat) >= 1,
        ;
        assert(2 * (initial * pow2((n - 1) as nat)) == initial * pow2(n)) by (nonlinear_arith)
            requires
                pow2(n) == 2 * pow2((n - 1) as nat),
        ;
        if initial * pow2((n - 1) as nat) <= ceiling {
            assert(nth_wait(initial, ceiling, (n - 1) as nat) == initial * pow2((n - 1) as nat));
        } else {
            assert(nth_wait(initial, ceiling, (n - 1) as nat) == ceiling);
            assert(initial * pow2(n) > ceiling);
        }
    }
}

/// How the pump resolved one inbound message. Each variant stands for
/// what the step contracts above guarantee: `Delivered` carries the
/// lines of a successful `EmitLines` action, `Abandoned` the description
/// behind a fatal `EmitEnvelope` action, `ShutdownDuringRetry` the
/// envelope of `on_shutdown_during_wait`, and `DroppedAtShutdown` a
/// message refused by `accept_message` once shutdown has fired.
pub enum Resolution {
    /// The exchange eventually succeeded and these lines were emitted.
    Delivered(Seq<Seq<char>>),
    /// A fatal failure with this description: one envelope was emitted
    /// and the message abandoned.
    Abandoned(Seq<char>),
    /// Shutdown preempted a retry wait: one shutdown envelope was
    /// emitted and the pump terminated.
    ShutdownDuringRetry,
    /// The message arrived after shutdown had fired: dropped with no
    /// output, and the pump terminated.
    DroppedAtShutdown,
}

/// The lines the pump emits for one message resolved this way.
pub open spec fn resolution_output(r: Resolution) -> Seq<Seq<char>> {
    match r {
        Resolution::Delivered(lines) => lines,
        Resolution::Abandoned(d) => seq![envelope_spec(fatal_text(d))],
        Resolution::ShutdownDuringRetry => seq![envelope_spec(shutdown_text())],
        Resolution::DroppedAtShutdown => Seq::empty(),
    }
}

/// Whether this resolution ends the pump, so that no later message is
/// processed.
pub open spec fn resolution_terminates(r: Resolution) -> bool {
    r is ShutdownDuringRetry || r is DroppedAtShutdown
}

/// Everything the pump emits over a run in which message `i` resolved as
/// `rs[i]`: the per-message outputs in arrival order, cut off at the
/// first resolution that terminates the pump.
pub open spec fn run_output(rs: Seq<Resolution>) -> Seq<Seq<char>>
    decreases rs.len(),
{
    if rs.len() == 0 {
        Seq::empty()
    } else if resolution_terminates(rs[0]) {
        resolution_output(rs[0])
    } else {
        resolution_output(rs[0]) + run_output(rs.drop_first())
    }
}

/// Ordering: as long as no earlier message terminated the pump, the
/// output of a run splits at any message boundary — every line emitted
/// for the first `i` messages comes before every line emitted for the
/// rest. In particular all output for message `i` precedes all output
/// for message `i + 1`.
pub proof fn lemma_run_output_split(rs: Seq<Resolution>, i: int)
    requires
        0 <= i <= rs.len(),
        forall|j: int| 0 <= j < i ==> !resolution_terminates(#[trigger] rs[j]),
    ensures
        run_output(rs) == run_output(rs.take(i)) + run_output(rs.skip(i)),
    decreases i,
{
    if i == 0 {
        assert(rs.take(0) =~= Seq::<Resolution>::empty());
        assert(rs.skip(0) =~= rs);
        assert(run_output(rs.take(0)) + run_output(rs) =~= run_output(rs));
    } else {
        let d = rs.drop_first();
        assert(forall|j: int| 0 <= j < i - 1 ==> !resolution_terminates(#[trigger] d[j]));
        lemma_run_output_split(d, i - 1);
        assert(d.skip(i - 1) =~= rs.skip(i));
        assert(d.take(i - 1) =~= rs.take(i).drop_first());
        assert(rs.take(i)[0] == rs[0]);
        assert(run_output(rs.take(i)) == resolution_output(rs[0]) + run_output(d.take(i - 1)));
        assert(run_output(rs) == resolution_output(rs[0]) + (run_output(d.take(i - 1))
            + run_output(rs.skip(i))));
        assert(resolution_output(rs[0]) + (run_output(d.take(i - 1)) + run_output(rs.skip(i)))
            =~= (resolution_output(rs[0]) + run_output(d.take(i - 1))) + run_output(
            rs.skip(i),
        ));
    }
}

/// The output for message `i` itself stands between the output of the
/// messages before it and the output of those after it.
pub proof fn lemma_message_output_in_order(rs: Seq<Resolution>, i: int)
    requires
        0 <= i < rs.len(),
        forall|j: int| 0 <= j < i ==> !resolution_terminates(#[trigger] rs[j]),
    ensures
        run_output(rs) == run_output(rs.take(i)) + resolution_output(rs[i]) + (
        if resolution_terminates(rs[i]) {
            Seq::<Seq<char>>::empty()
        } else {
            run_output(rs.skip(i + 1))
        }),
{
    lemma_run_output_split(rs, i);
    let t = rs.skip(i);
    assert(t[0] == rs[i]);
    assert(t.drop_first() =~= rs.skip(i + 1));
    if resolution_terminates(rs[i]) {
        assert(run_output(t) == resolution_output(rs[i]));
        assert(run_output(rs.take(i)) + resolution_output(rs[i]) + Seq::<Seq<char>>::empty()
            =~= run_output(rs.take(i)) + resolution_output(rs[i]));
    } else {
        assert(run_output(t) == resolution_output(rs[i]) + run_output(rs.skip(i + 1)));
        assert(run_output(rs.take(i)) + (resolution_output(rs[i]) + run_output(rs.skip(i + 1)))
            =~= run_output(rs.take(i)) + resolution_output(rs[i]) + run_output(rs.skip(i + 1)));
    }
}

} // verus!
