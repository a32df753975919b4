//! What the toolchain check runs and how it judges.

use crate::launch;
use crate::meaning::{cover, given, of, Value};
use crate::spike;
use crate::spike::{
    CheckOutcome, DeviceCapability, GraphAction, GraphEnd, GraphEvent, GraphRun, Measured,
    OutcomeView, Probe, ProbeArg, SpikeStep,
};
use vstd::prelude::*;

verus! {

/// One operation of an expression.
pub enum ProbeOp {
    /// `a * b + 1`, elementwise.
    MultiplyAddOne,
    /// The sum over each warp's lanes.
    WarpSums,
    /// How many of each warp's lanes hold more than a half.
    WarpBallots,
    /// `acc + a`, elementwise.
    Accumulated,
}

/// What a buffer holds.
pub type ProbeValue = Value<ProbeArg, ProbeOp>;

/// The contents of every buffer.
pub type ProbeMemory = Map<ProbeArg, ProbeValue>;

/// The integer at a position of an argument list.
pub open spec fn int_at(args: Seq<ProbeArg>, i: int) -> int {
    match args[i] {
        ProbeArg::Int(n) => n as int,
        _ => -1,
    }
}

/// What one launch leaves behind: the positions are those of the parameters in
/// the declaration of the entry point.
pub open spec fn launched(l: launch::LaunchView<ProbeArg>, m: ProbeMemory) -> ProbeMemory {
    let a = l.args;
    if l.kernel == "inline_ptx_fma"@ {
        // a, b, out, n
        m.insert(
            a[2],
            of(ProbeOp::MultiplyAddOne, seq![m[a[0]], m[a[1]]], seq![int_at(a, 3)]),
        )
    } else if l.kernel == "warp_ops"@ {
        // in, sums, counts, n
        m.insert(a[1], of(ProbeOp::WarpSums, seq![m[a[0]]], seq![int_at(a, 3)])).insert(
            a[2],
            of(ProbeOp::WarpBallots, seq![m[a[0]]], seq![int_at(a, 3)]),
        )
    } else if l.kernel == "accum"@ {
        // a, acc, n
        m.insert(a[1], of(ProbeOp::Accumulated, seq![m[a[1]], m[a[0]]], seq![int_at(a, 2)]))
    } else {
        m
    }
}

/// What the caller put into a buffer.
pub open spec fn input(a: ProbeArg) -> ProbeValue {
    Value::Given(a)
}

proof fn lemma_kernel_names()
    ensures
        "inline_ptx_fma"@ != "warp_ops"@,
        "inline_ptx_fma"@ != "accum"@,
        "warp_ops"@ != "accum"@,
{
    reveal_strlit("inline_ptx_fma");
    reveal_strlit("warp_ops");
    reveal_strlit("accum");
    assert("inline_ptx_fma"@.len() == 14 && "warp_ops"@.len() == 8 && "accum"@.len() == 5);
}

/// A compiled source is a probe of it that runs the PTX the compiler gave, and
/// one that did not compile is a failure, never a pass. A probe computes what
/// its check measures, on one thread per element.
pub proof fn law_probes_compute_what_is_measured(
    answer: Result<String, String>,
    r: Result<Probe, CheckOutcome>,
)
    ensures
        spike::inline_ptx_probe_for(answer, r) ==> match (answer, r) {
            (Ok(image), Ok(p)) => {
                let start: ProbeMemory = given();
                let c = p.launch.config;
                &&& p.ptx@ == image@
                &&& launched(p.launch@, start)[ProbeArg::Out] == of(
                    ProbeOp::MultiplyAddOne,
                    seq![input(ProbeArg::A), input(ProbeArg::B)],
                    seq![1024int],
                )
                &&& cover(c.grid_dim.0 as int, 256, 1024)
                &&& c.grid_dim.1 == 1 && c.grid_dim.2 == 1
                &&& c.block_dim == (256u32, 1u32, 1u32) && c.shared_mem_bytes == 0
            },
            (Err(_), Err(c)) => c@ is Fail,
            _ => false,
        },
        spike::warp_probe_for(answer, r) ==> match (answer, r) {
            (Ok(image), Ok(p)) => {
                let start: ProbeMemory = given();
                let c = p.launch.config;
                &&& p.ptx@ == image@
                &&& launched(p.launch@, start)[ProbeArg::Sums] == of(
                    ProbeOp::WarpSums,
                    seq![input(ProbeArg::A)],
                    seq![256int],
                )
                &&& launched(p.launch@, start)[ProbeArg::Counts] == of(
                    ProbeOp::WarpBallots,
                    seq![input(ProbeArg::A)],
                    seq![256int],
                )
                &&& c.grid_dim == (1u32, 1u32, 1u32)
                &&& c.block_dim == (256u32, 1u32, 1u32) && c.shared_mem_bytes == 0
            },
            (Err(_), Err(c)) => c@ is Fail,
            _ => false,
        },
        spike::graph_probe_for(answer, r) ==> match (answer, r) {
            (Ok(image), Ok(p)) => {
                let start: ProbeMemory = given();
                let c = p.launch.config;
                &&& p.ptx@ == image@
                &&& launched(p.launch@, start)[ProbeArg::Accumulator] == of(
                    ProbeOp::Accumulated,
                    seq![input(ProbeArg::Accumulator), input(ProbeArg::A)],
                    seq![256int],
                )
                &&& c.grid_dim == (1u32, 1u32, 1u32)
                &&& c.block_dim == (256u32, 1u32, 1u32) && c.shared_mem_bytes == 0
            },
            (Err(_), Err(c)) => c@ is Fail,
            _ => false,
        },
{
    lemma_kernel_names();
    if let (Ok(_), Ok(p)) = (answer, r) {
        let start: ProbeMemory = given();
        let end = launched(p.launch@, start);
        if spike::inline_ptx_probe_for(answer, r) {
            assert(end[ProbeArg::Out] == of(
                ProbeOp::MultiplyAddOne,
                seq![input(ProbeArg::A), input(ProbeArg::B)],
                seq![1024int],
            ));
        }
        if spike::warp_probe_for(answer, r) {
            assert(end[ProbeArg::Sums] == of(
                ProbeOp::WarpSums,
                seq![input(ProbeArg::A)],
                seq![256int],
            ));
            assert(end[ProbeArg::Counts] == of(
                ProbeOp::WarpBallots,
                seq![input(ProbeArg::A)],
                seq![256int],
            ));
        }
        if spike::graph_probe_for(answer, r) {
            assert(end[ProbeArg::Accumulator] == of(
                ProbeOp::Accumulated,
                seq![input(ProbeArg::Accumulator), input(ProbeArg::A)],
                seq![256int],
            ));
        }
    }
}

/// A check passes exactly where its probe ran and everything it measured is
/// close; once run it is never skipped, and a graph needs its accumulator.
pub proof fn law_verdicts_follow_the_measurements(
    run: Result<Measured, String>,
    warps: Result<(Measured, bool), String>,
    end: GraphEnd,
    accumulator: Option<Measured>,
)
    ensures
        spike::inline_ptx_verdict(run) is Pass <==> (run matches Ok(m) && m.close),
        spike::warp_verdict(warps) is Pass <==> {
            &&& warps matches Ok((m, counts))
            &&& m.close && counts
        },
        spike::cuda_graphs_verdict(end, accumulator) is Pass <==> {
            &&& end is Completed
            &&& accumulator matches Some(m)
            &&& m.close
        },
        !(spike::inline_ptx_verdict(run) is Skipped),
        !(spike::warp_verdict(warps) is Skipped),
        !(spike::cuda_graphs_verdict(end, accumulator) is Skipped),
{
}

/// The device checks are skipped exactly on a device known to be too old, and
/// the check that needs only the compiler is kept either way.
pub proof fn law_only_an_old_device_is_skipped(
    ordinal: usize,
    emits: OutcomeView,
    capability: Option<DeviceCapability>,
    s: SpikeStep,
)
    requires
        spike::step_for(ordinal, emits, capability, s),
    ensures
        s is Report <==> (capability matches Some(c) && !c.supported),
        s matches SpikeStep::Report(r) ==> {
            &&& r.emits_sm75_ptx@ == emits
            &&& r.inline_ptx@ is Skipped
            &&& r.warp_intrinsics@ is Skipped
            &&& r.cuda_graphs@ is Skipped
        },
        s matches SpikeStep::RunDeviceChecks { emits_sm75_ptx } ==> emits_sm75_ptx@ == emits,
{
    if let SpikeStep::Report(r) = s {
        assert(r@[0] == emits);
        assert(r@[1] is Skipped && r@[2] is Skipped && r@[3] is Skipped);
    }
}

/// Ahead of every `second` of the script stands a `first`.
pub open spec fn before(first: GraphAction, second: GraphAction) -> bool {
    forall|i: int|
        0 <= i < spike::script().len() && #[trigger] spike::script()[i] == second ==> exists|j: int|
            0 <= j < i && #[trigger] spike::script()[j] == first
}

/// Nothing is used before it is there: what the launch needs is made before the
/// capture, the graph before it is replayed, and the accumulator is read last,
/// behind every replay and a wait for the stream.
pub proof fn law_script_makes_before_it_uses()
    ensures
        before(GraphAction::Load, GraphAction::Launch),
        before(GraphAction::CreateStream, GraphAction::UploadOnes),
        before(GraphAction::CreateStream, GraphAction::BeginCapture),
        before(GraphAction::UploadOnes, GraphAction::BeginCapture),
        before(GraphAction::AllocateAccumulator, GraphAction::BeginCapture),
        before(GraphAction::BeginCapture, GraphAction::Launch),
        before(GraphAction::Launch, GraphAction::EndCapture),
        before(GraphAction::EndCapture, GraphAction::Replay),
        before(GraphAction::Replay, GraphAction::ReadBack),
        ({
            let s = spike::script();
            let last = s.len() - 1;
            &&& s[last] == GraphAction::ReadBack
            &&& s[last - 1] == GraphAction::SynchronizeStream
            &&& s[last - 2] == GraphAction::Replay
            &&& forall|i: int| 0 <= i < last ==> #[trigger] s[i] != GraphAction::ReadBack
        }),
{
    let s = spike::script();
    assert(s[0] == GraphAction::Load);
    assert(s[1] == GraphAction::CreateStream);
    assert(s[2] == GraphAction::UploadOnes);
    assert(s[3] == GraphAction::AllocateAccumulator);
    assert(s[7] == GraphAction::BeginCapture);
    assert(s[8] == GraphAction::Launch);
    assert(s[9] == GraphAction::EndCapture);
    assert(s[10] == GraphAction::Replay);
}

/// A run in which every action succeeds takes the script from its first action
/// to its last, one after the other, and is completed.
pub proof fn law_success_takes_every_action(at: usize)
    requires
        at < spike::script().len(),
    ensures
        GraphRun::Running(at).next_action() == spike::script()[at as int],
        at + 1 < spike::script().len() ==> GraphRun::Running(at).after(GraphEvent::Done)
            == GraphRun::Running((at + 1) as usize),
        at + 1 == spike::script().len() ==> GraphRun::Running(at).after(GraphEvent::Done)
            == GraphRun::Restoring(GraphEnd::Completed),
        GraphRun::Running(at).after(GraphEvent::NoGraph) == GraphRun::Restoring(GraphEnd::NoGraph),
{
}

} // verus!
