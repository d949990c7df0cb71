use vstd::prelude::*;

use crate::probe::{
    classify, next_stage, run, run_from, stage_action, touches_network, trace, trace_from, Action,
    ProbeError, Stage, StepResult,
};
use crate::transport::{TransportError, CONNECT_TIMEOUT_SECS};

verus! {

/// How many more step results stage `s` reads at most before it finishes.
pub open spec fn steps_left(s: Stage) -> nat {
    match s {
        Stage::ParseAddress => 4,
        Stage::Connect => 3,
        Stage::SetNoDelay => 2,
        Stage::Handshake => 1,
        Stage::Finished(_) => 0,
    }
}

proof fn lemma_steps_left_decrease(s: Stage, step: StepResult)
    requires
        !(s is Finished),
    ensures
        steps_left(next_stage(s, step)) < steps_left(s),
{
}

/// From stage `s`, the stage reached and the actions asked for depend only on
/// the first `steps_left(s)` step results.
proof fn lemma_run_reads_prefix(s: Stage, r1: Seq<StepResult>, r2: Seq<StepResult>)
    requires
        r1.len() >= steps_left(s),
        r2.len() >= steps_left(s),
        r1.subrange(0, steps_left(s) as int) == r2.subrange(0, steps_left(s) as int),
    ensures
        run_from(s, r1) == run_from(s, r2),
        trace_from(s, r1) == trace_from(s, r2),
    decreases r1.len(),
{
    if !(s is Finished) {
        let n = steps_left(s) as int;
        assert(r1[0] == r1.subrange(0, n)[0]);
        assert(r2[0] == r2.subrange(0, n)[0]);
        let t = next_stage(s, r1[0]);
        lemma_steps_left_decrease(s, r1[0]);
        let m = steps_left(t) as int;
        assert(r1.drop_first().subrange(0, m) == r1.subrange(0, n).subrange(1, m + 1));
        assert(r2.drop_first().subrange(0, m) == r2.subrange(0, n).subrange(1, m + 1));
        lemma_run_reads_prefix(t, r1.drop_first(), r2.drop_first());
    }
}

/// A probe that has received a result for each of its four steps has
/// finished, and its outcome is decided by the first step that failed: the
/// transport error of that step, a handshake error when only the handshake
/// failed, success when none did; a failure keeps the failed step's error
/// text.
pub proof fn lemma_outcome_classified(results: Seq<StepResult>)
    requires
        results.len() >= 4,
    ensures
        run(results) == Stage::Finished(
            classify(results[0], results[1], results[2], results[3]),
        ),
{
    let r1 = results.drop_first();
    let r2 = r1.drop_first();
    let r3 = r2.drop_first();
    let r4 = r3.drop_first();
    assert(r1[0] == results[1]);
    assert(r2[0] == results[2]);
    assert(r3[0] == results[3]);
    let s1 = next_stage(Stage::ParseAddress, results[0]);
    let s2 = next_stage(s1, results[1]);
    let s3 = next_stage(s2, results[2]);
    let s4 = next_stage(s3, results[3]);
    assert(run_from(s4, r4) == s4);
    assert(run_from(s3, r3) == s4 || s3 is Finished);
    assert(run_from(s2, r2) == run_from(s3, r3) || s2 is Finished);
    assert(run_from(s1, r1) == run_from(s2, r2) || s1 is Finished);
}

/// A probe whose endpoint does not parse fails with a transport error that
/// keeps the parser's error text, and asks for no network work at all.
pub proof fn lemma_invalid_address_stays_offline(results: Seq<StepResult>)
    requires
        results.len() >= 1,
        results[0] is Err,
    ensures
        run(results) == Stage::Finished(
            Err(ProbeError::Transport(TransportError::InvalidAddress(results[0]->Err_0))),
        ),
        forall|i: int| 0 <= i < trace(results).len() ==> !touches_network(#[trigger] trace(results)[i]),
{
    let done = Stage::Finished(
        Err(ProbeError::Transport(TransportError::InvalidAddress(results[0]->Err_0))),
    );
    let rest = results.drop_first();
    assert(next_stage(Stage::ParseAddress, results[0]) == done);
    assert(run_from(done, rest) == done);
    assert(trace_from(done, rest) == seq![stage_action(done)]);
    assert(trace(results) == seq![Action::ParseAddress, Action::Report]);
}

/// Every connect that a probe asks for, whatever its steps return, waits at
/// most the fixed connect timeout.
pub proof fn lemma_connect_bounded(results: Seq<StepResult>)
    ensures
        forall|i: int|
            0 <= i < trace(results).len() && (#[trigger] trace(results)[i]) is Connect
                ==> trace(results)[i]->timeout_secs == CONNECT_TIMEOUT_SECS,
{
    lemma_trace_connect_bounded(Stage::ParseAddress, results);
}

proof fn lemma_trace_connect_bounded(s: Stage, results: Seq<StepResult>)
    ensures
        forall|i: int|
            0 <= i < trace_from(s, results).len() && (#[trigger] trace_from(s, results)[i]) is Connect
                ==> trace_from(s, results)[i]->timeout_secs == CONNECT_TIMEOUT_SECS,
    decreases results.len(),
{
    if results.len() > 0 && !(s is Finished) {
        lemma_trace_connect_bounded(next_stage(s, results[0]), results.drop_first());
    }
}

/// Two probes whose four steps give the same results ask for the same actions
/// and end with the same outcome.
pub proof fn lemma_outcome_repeatable(r1: Seq<StepResult>, r2: Seq<StepResult>)
    requires
        r1.len() >= 4,
        r2.len() >= 4,
        r1.subrange(0, 4) == r2.subrange(0, 4),
    ensures
        run(r1) == run(r2),
        trace(r1) == trace(r2),
{
    lemma_run_reads_prefix(Stage::ParseAddress, r1, r2);
}

} // verus!
