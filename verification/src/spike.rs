//! The toolchain check: four questions that decide whether the kernels can be
//! built and run as designed.
//!
//! Does the compiler emit sm_75 PTX? Is inline PTX usable inside a kernel? Do
//! warp shuffle and vote intrinsics lower correctly? Can a launch be captured
//! into a graph and replayed? A question is answered by compiled code that ran
//! and was measured. A check that could not run is skipped, which is neither a
//! pass nor a failure.
//!
//! The caller owns the device: it runs what a check hands out and hands back
//! what it measured.

use crate::kernels::ptx;
use crate::kernels::ptx::{compile_for, has_nul, TARGET_ARCH};
use crate::launch::{Launch, LaunchConfig};
use crate::search;
use crate::search::{characters, contains, find_line};
use crate::source::spike::{ACCUM_SRC, INLINE_PTX_SRC, VECADD_SRC, WARP_SRC};
use crate::text;
use crate::text::push_decimal;
use vstd::prelude::*;
use vstd::string::StringExecFns;

verus! {

/// The toolchain this check decided on.
pub const TOOLCHAIN_DECISION: &'static str = "cudarc 0.19 + NVRTC";

/// Elements of the inline-PTX probe.
pub const INLINE_PTX_ELEMENTS: usize = 1024;

/// Warps of the warp-intrinsics probe.
pub const WARP_PROBE_WARPS: usize = 8;

/// Elements of the warp-intrinsics probe.
pub const WARP_PROBE_ELEMENTS: usize = 256;

/// Elements of the graph probe.
pub const GRAPH_ELEMENTS: usize = 256;

/// Times the captured graph is replayed.
pub const GRAPH_REPLAYS: usize = 5;

/// Outcome of a single check.
#[derive(Debug, Clone, PartialEq, Eq)]
pub enum CheckOutcome {
    /// The capability is present and was demonstrated by running code.
    Pass(String),
    /// The capability is absent, with what that implies.
    Fail(String),
    /// The check could not run: no driver, no device, no toolkit.
    Skipped(String),
}

/// An outcome with its text as a sequence.
pub enum OutcomeView {
    /// Demonstrated.
    Pass(Seq<char>),
    /// Absent.
    Fail(Seq<char>),
    /// Did not run.
    Skipped(Seq<char>),
}

impl View for CheckOutcome {
    type V = OutcomeView;

    open spec fn view(&self) -> OutcomeView {
        match self {
            CheckOutcome::Pass(d) => OutcomeView::Pass(d@),
            CheckOutcome::Fail(d) => OutcomeView::Fail(d@),
            CheckOutcome::Skipped(d) => OutcomeView::Skipped(d@),
        }
    }
}

impl OutcomeView {
    /// The outcome as a line of a report.
    pub open spec fn text(self) -> Seq<char> {
        match self {
            OutcomeView::Pass(d) => "PASS    "@ + d,
            OutcomeView::Fail(d) => "FAIL    "@ + d,
            OutcomeView::Skipped(d) => "SKIPPED "@ + d,
        }
    }
}

impl CheckOutcome {
    /// Whether this outcome demonstrates the capability.
    pub fn is_pass(&self) -> (b: bool)
        ensures
            b == (self@ is Pass),
    {
        match self {
            CheckOutcome::Pass(_) => true,
            _ => false,
        }
    }

    /// Whether the check ran at all.
    pub fn ran(&self) -> (b: bool)
        ensures
            b == !(self@ is Skipped),
    {
        match self {
            CheckOutcome::Skipped(_) => false,
            _ => true,
        }
    }

    /// The outcome as a line of a report.
    pub fn message(&self) -> (s: String)
        ensures
            s@ == self@.text(),
    {
        let mut s = String::new();
        match self {
            CheckOutcome::Pass(d) => {
                s.append("PASS    ");
                s.append(d.as_str());
            },
            CheckOutcome::Fail(d) => {
                s.append("FAIL    ");
                s.append(d.as_str());
            },
            CheckOutcome::Skipped(d) => {
                s.append("SKIPPED ");
                s.append(d.as_str());
            },
        }
        s
    }
}

/// The result of all four checks.
#[derive(Debug, Clone)]
pub struct SpikeReport {
    /// Whether sm_75 PTX is emitted.
    pub emits_sm75_ptx: CheckOutcome,
    /// Whether inline PTX is usable inside kernels.
    pub inline_ptx: CheckOutcome,
    /// Whether warp shuffle and vote intrinsics work.
    pub warp_intrinsics: CheckOutcome,
    /// Whether graphs can be captured and replayed.
    pub cuda_graphs: CheckOutcome,
}

impl View for SpikeReport {
    type V = Seq<OutcomeView>;

    /// The outcomes in order.
    open spec fn view(&self) -> Seq<OutcomeView> {
        seq![
            self.emits_sm75_ptx@,
            self.inline_ptx@,
            self.warp_intrinsics@,
            self.cuda_graphs@,
        ]
    }
}

/// Every check that ran passed.
pub open spec fn no_failure(report: Seq<OutcomeView>) -> bool {
    forall|i: int| 0 <= i < report.len() ==> (#[trigger] report[i]) is Pass || report[i] is Skipped
}

/// Every check ran.
pub open spec fn complete(report: Seq<OutcomeView>) -> bool {
    forall|i: int| 0 <= i < report.len() ==> !((#[trigger] report[i]) is Skipped)
}

impl SpikeReport {
    /// Labels matching [`Self::checks`].
    pub const LABELS: [&'static str; 4] = [
        "Q1 sm_75 PTX emission",
        "Q2 inline PTX escape hatch",
        "Q3 warp shuffle/vote intrinsics",
        "Q4 CUDA graph capture and replay",
    ];

    /// The checks in order.
    pub fn checks(&self) -> (c: [&CheckOutcome; 4])
        ensures
            c@.len() == self@.len(),
            forall|i: int| 0 <= i < 4 ==> (#[trigger] c@[i])@ == self@[i],
    {
        [&self.emits_sm75_ptx, &self.inline_ptx, &self.warp_intrinsics, &self.cuda_graphs]
    }

    /// Whether every check that ran passed.
    ///
    /// Skipped checks do not count toward success; consult [`Self::all_ran`].
    pub fn all_ran_checks_passed(&self) -> (b: bool)
        ensures
            b == no_failure(self@),
    {
        let checks: [&CheckOutcome; 4] = self.checks();
        let mut i: usize = 0;
        while i < 4
            invariant
                i <= 4,
                self@.len() == 4,
                checks@.len() == 4,
                forall|j: int| 0 <= j < 4 ==> (#[trigger] checks@[j])@ == self@[j],
                forall|j: int| 0 <= j < i ==> (#[trigger] self@[j]) is Pass || self@[j] is Skipped,
            decreases 4 - i,
        {
            assert(checks@[i as int]@ == self@[i as int]);
            if checks[i].ran() && !checks[i].is_pass() {
                return false;
            }
            i = i + 1;
        }
        true
    }

    /// Whether every check actually executed.
    pub fn all_ran(&self) -> (b: bool)
        ensures
            b == complete(self@),
    {
        let checks: [&CheckOutcome; 4] = self.checks();
        let mut i: usize = 0;
        while i < 4
            invariant
                i <= 4,
                self@.len() == 4,
                checks@.len() == 4,
                forall|j: int| 0 <= j < 4 ==> (#[trigger] checks@[j])@ == self@[j],
                forall|j: int| 0 <= j < i ==> !((#[trigger] self@[j]) is Skipped),
            decreases 4 - i,
        {
            assert(checks@[i as int]@ == self@[i as int]);
            if !checks[i].ran() {
                return false;
            }
            i = i + 1;
        }
        true
    }
}

/// An argument of a probe kernel.
#[derive(Debug, Clone, Copy, PartialEq, Eq)]
pub enum ProbeArg {
    /// The first input.
    A,
    /// The second input.
    B,
    /// The output.
    Out,
    /// The per-warp sums.
    Sums,
    /// The per-warp ballot counts.
    Counts,
    /// The accumulator.
    Accumulator,
    /// An integer by value.
    Int(i32),
}

/// A compiled probe and the launch that exercises it.
#[derive(Debug)]
pub struct Probe {
    /// The PTX to load.
    pub ptx: String,
    /// The launch.
    pub launch: Launch<ProbeArg>,
}

impl Probe {
    /// Exactly this PTX, entry point, shape and argument list.
    pub open spec fn runs(
        self,
        image: Seq<char>,
        kernel: Seq<char>,
        config: LaunchConfig,
        args: Seq<ProbeArg>,
    ) -> bool {
        self.ptx@ == image && self.launch.runs(kernel, config, args)
    }
}

/// What a probe measured against the host: the largest absolute error, as text,
/// and whether it is within tolerance.
#[derive(Debug, Clone, PartialEq, Eq)]
pub struct Measured {
    /// The error.
    pub error: String,
    /// Whether it is small enough.
    pub close: bool,
}

/// What may be answered for a probe: an answer of the compiler to exactly that
/// source and name, or the note that a text holds a NUL byte and never reached
/// it.
pub open spec fn probe_answer(
    src: Seq<char>,
    name: Seq<char>,
    answer: Result<String, String>,
) -> bool {
    if ptx::holds_nul(src) || ptx::holds_nul(name) {
        answer matches Err(e) && e@ == "the text holds a NUL byte"@
    } else {
        ptx::may_answer(src, name, answer)
    }
}

/// What the compiler answered for a probe: PTX, or diagnostics.
fn compile_probe(src: &str, name: &str) -> (answer: Result<String, String>)
    ensures
        probe_answer(src@, name@, answer),
{
    if has_nul(src) || has_nul(name) {
        let mut text = String::new();
        text.append("the text holds a NUL byte");
        return Err(text);
    }
    proof {
        ptx::lemma_target_arch_holds_no_nul();
    }
    compile_for(src, TARGET_ARCH, name)
}

/// The outcome of the first check for what the compiler answered.
pub open spec fn sm75_verdict(answer: Result<String, String>) -> OutcomeView {
    match answer {
        Err(e) => OutcomeView::Fail("NVRTC rejected compute_75: "@ + e@),
        Ok(src) => if search::holds(src@, ".target sm_75"@) {
            OutcomeView::Pass("NVRTC emits PTX with `.target sm_75`"@)
        } else {
            OutcomeView::Fail(
                "expected `.target sm_75`, PTX carries `"@ + directive(src@) + "`"@,
            )
        },
    }
}

/// The target directive a PTX text carries.
pub open spec fn directive(src: Seq<char>) -> Seq<char> {
    match search::line_with_prefix(src, ".target"@, 0) {
        Some(line) => line,
        None => "<no .target directive>"@,
    }
}

/// The outcome of the first check for what the compiler answered.
///
/// Compiling without error is not enough: the PTX has to carry the matching
/// target directive.
pub fn sm75_outcome(answer: Result<String, String>) -> (c: CheckOutcome)
    ensures
        c@ == sm75_verdict(answer),
{
    match answer {
        Err(e) => {
            let mut s = String::new();
            s.append("NVRTC rejected compute_75: ");
            s.append(e.as_str());
            CheckOutcome::Fail(s)
        },
        Ok(src) => {
            let mut s = String::new();
            if contains(&characters(src.as_str()), &characters(".target sm_75")) {
                s.append("NVRTC emits PTX with `.target sm_75`");
                return CheckOutcome::Pass(s);
            }
            s.append("expected `.target sm_75`, PTX carries `");
            match find_line(src.as_str(), ".target") {
                Some(line) => {
                    s.append(line.as_str());
                },
                None => {
                    s.append("<no .target directive>");
                },
            }
            s.append("`");
            CheckOutcome::Fail(s)
        },
    }
}

/// Does the compiler emit PTX targeting sm_75?
///
/// The outcome is that of whatever the compiler answered.
pub fn check_sm75_ptx() -> (c: CheckOutcome)
    ensures
        exists|answer: Result<String, String>|
            probe_answer(VECADD_SRC@, "vecadd"@, answer) && c@ == #[trigger] sm75_verdict(answer),
{
    let answer: Result<String, String> = compile_probe(VECADD_SRC, "vecadd");
    let ghost given = answer;
    let c: CheckOutcome = sm75_outcome(answer);
    assert(c@ == sm75_verdict(given));
    c
}

/// The probe of inline PTX for what the compiler answered.
pub open spec fn inline_ptx_probe_for(
    answer: Result<String, String>,
    r: Result<Probe, CheckOutcome>,
) -> bool {
    match answer {
        Err(e) => r matches Err(c) && c@ == OutcomeView::Fail(
            "inline `asm volatile` rejected by NVRTC: "@ + e@,
        ),
        Ok(image) => r matches Ok(p) && p.runs(
            image@,
            "inline_ptx_fma"@,
            LaunchConfig {
                grid_dim: (4, 1, 1),
                block_dim: (256, 1, 1),
                shared_mem_bytes: 0,
            },
            seq![ProbeArg::A, ProbeArg::B, ProbeArg::Out, ProbeArg::Int(1024)],
        ),
    }
}

/// What to run for the second check, or why it failed already, for what the
/// compiler answered.
pub fn inline_ptx_probe(answer: Result<String, String>) -> (r: Result<Probe, CheckOutcome>)
    ensures
        inline_ptx_probe_for(answer, r),
{
    match answer {
        Err(e) => {
            let mut s = String::new();
            s.append("inline `asm volatile` rejected by NVRTC: ");
            s.append(e.as_str());
            Err(CheckOutcome::Fail(s))
        },
        Ok(ptx) => {
            Ok(
                Probe {
                    ptx,
                    launch: Launch {
                        kernel: "inline_ptx_fma",
                        config: LaunchConfig {
                            grid_dim: (4, 1, 1),
                            block_dim: (256, 1, 1),
                            shared_mem_bytes: 0,
                        },
                        args: vec![
                            ProbeArg::A,
                            ProbeArg::B,
                            ProbeArg::Out,
                            ProbeArg::Int(INLINE_PTX_ELEMENTS as i32),
                        ],
                    },
                },
            )
        },
    }
}

/// Is inline PTX usable inside a kernel? Compiles the probe and says what to
/// run; [`inline_ptx_outcome`] judges what it measured.
pub fn check_inline_ptx() -> (r: Result<Probe, CheckOutcome>)
    ensures
        exists|answer: Result<String, String>|
            probe_answer(INLINE_PTX_SRC@, "inline_ptx_fma"@, answer)
                && #[trigger] inline_ptx_probe_for(answer, r),
{
    let answer: Result<String, String> = compile_probe(INLINE_PTX_SRC, "inline_ptx_fma");
    let ghost given = answer;
    let r: Result<Probe, CheckOutcome> = inline_ptx_probe(answer);
    assert(inline_ptx_probe_for(given, r));
    r
}

/// The outcome of the second check for what running its probe gave.
pub open spec fn inline_ptx_verdict(run: Result<Measured, String>) -> OutcomeView {
    match run {
        Err(e) => OutcomeView::Fail("inline-PTX kernel failed to run: "@ + e@),
        Ok(m) => if m.close {
            OutcomeView::Pass(
                "`asm volatile(\"fma.rn.f32\")` compiled, launched, and matched host arithmetic (max abs error "@
                    + m.error@ + " over "@ + text::decimal(INLINE_PTX_ELEMENTS as nat)
                    + " elements)"@,
            )
        } else {
            OutcomeView::Fail(
                "inline PTX ran but produced wrong results: max abs error "@ + m.error@,
            )
        },
    }
}

/// The outcome of the second check for what running its probe gave.
pub fn inline_ptx_outcome(run: Result<Measured, String>) -> (c: CheckOutcome)
    ensures
        c@ == inline_ptx_verdict(run),
{
    let mut s = String::new();
    match run {
        Err(e) => {
            s.append("inline-PTX kernel failed to run: ");
            s.append(e.as_str());
            CheckOutcome::Fail(s)
        },
        Ok(m) => {
            if m.close {
                s.append(
                    "`asm volatile(\"fma.rn.f32\")` compiled, launched, and matched host arithmetic (max abs error ",
                );
                s.append(m.error.as_str());
                s.append(" over ");
                push_decimal(&mut s, INLINE_PTX_ELEMENTS);
                s.append(" elements)");
                CheckOutcome::Pass(s)
            } else {
                s.append("inline PTX ran but produced wrong results: max abs error ");
                s.append(m.error.as_str());
                CheckOutcome::Fail(s)
            }
        },
    }
}

/// The probe of the warp intrinsics for what the compiler answered.
pub open spec fn warp_probe_for(
    answer: Result<String, String>,
    r: Result<Probe, CheckOutcome>,
) -> bool {
    match answer {
        Err(e) => r matches Err(c) && c@ == OutcomeView::Fail(
            "warp intrinsics rejected by NVRTC: "@ + e@,
        ),
        Ok(image) => r matches Ok(p) && p.runs(
            image@,
            "warp_ops"@,
            LaunchConfig {
                grid_dim: (1, 1, 1),
                block_dim: (256, 1, 1),
                shared_mem_bytes: 0,
            },
            seq![ProbeArg::A, ProbeArg::Sums, ProbeArg::Counts, ProbeArg::Int(256)],
        ),
    }
}

/// What to run for the third check, or why it failed already, for what the
/// compiler answered.
pub fn warp_probe(answer: Result<String, String>) -> (r: Result<Probe, CheckOutcome>)
    ensures
        warp_probe_for(answer, r),
{
    match answer {
        Err(e) => {
            let mut s = String::new();
            s.append("warp intrinsics rejected by NVRTC: ");
            s.append(e.as_str());
            Err(CheckOutcome::Fail(s))
        },
        Ok(ptx) => {
            Ok(
                Probe {
                    ptx,
                    launch: Launch {
                        kernel: "warp_ops",
                        config: LaunchConfig {
                            grid_dim: (1, 1, 1),
                            block_dim: (WARP_PROBE_ELEMENTS as u32, 1, 1),
                            shared_mem_bytes: 0,
                        },
                        args: vec![
                            ProbeArg::A,
                            ProbeArg::Sums,
                            ProbeArg::Counts,
                            ProbeArg::Int(WARP_PROBE_ELEMENTS as i32),
                        ],
                    },
                },
            )
        },
    }
}

/// Do warp shuffle and vote intrinsics lower correctly? Compiles the probe and
/// says what to run; [`warp_outcome`] judges what it measured.
pub fn check_warp_intrinsics() -> (r: Result<Probe, CheckOutcome>)
    ensures
        exists|answer: Result<String, String>|
            probe_answer(WARP_SRC@, "warp_ops"@, answer) && #[trigger] warp_probe_for(answer, r),
{
    let answer: Result<String, String> = compile_probe(WARP_SRC, "warp_ops");
    let ghost given = answer;
    let r: Result<Probe, CheckOutcome> = warp_probe(answer);
    assert(warp_probe_for(given, r));
    r
}

/// The outcome of the third check for what running its probe gave: the error of
/// the shuffled sums, and whether every ballot count matched.
pub open spec fn warp_verdict(run: Result<(Measured, bool), String>) -> OutcomeView {
    match run {
        Err(e) => OutcomeView::Fail("warp kernel failed to run: "@ + e@),
        Ok((sums, counts_match)) => if counts_match && sums.close {
            OutcomeView::Pass(
                "__shfl_xor_sync butterfly reduction and __ballot_sync/__popc both match host results across "@
                    + text::decimal(WARP_PROBE_WARPS as nat) + " warps (max abs error "@
                    + sums.error@ + ")"@,
            )
        } else {
            OutcomeView::Fail(
                "warp intrinsics produced wrong results: shuffle max abs error "@ + sums.error@
                    + ", ballot counts "@ + (if counts_match {
                    "matched"@
                } else {
                    "MISMATCHED"@
                }),
            )
        },
    }
}

/// The outcome of the third check for what running its probe gave.
pub fn warp_outcome(run: Result<(Measured, bool), String>) -> (c: CheckOutcome)
    ensures
        c@ == warp_verdict(run),
{
    let mut s = String::new();
    match run {
        Err(e) => {
            s.append("warp kernel failed to run: ");
            s.append(e.as_str());
            CheckOutcome::Fail(s)
        },
        Ok((sums, counts_match)) => {
            if counts_match && sums.close {
                s.append(
                    "__shfl_xor_sync butterfly reduction and __ballot_sync/__popc both match host results across ",
                );
                push_decimal(&mut s, WARP_PROBE_WARPS);
                s.append(" warps (max abs error ");
                s.append(sums.error.as_str());
                s.append(")");
                CheckOutcome::Pass(s)
            } else {
                s.append("warp intrinsics produced wrong results: shuffle max abs error ");
                s.append(sums.error.as_str());
                s.append(", ballot counts ");
                if counts_match {
                    s.append("matched");
                } else {
                    s.append("MISMATCHED");
                }
                CheckOutcome::Fail(s)
            }
        },
    }
}

/// The probe of graph capture for what the compiler answered.
pub open spec fn graph_probe_for(
    answer: Result<String, String>,
    r: Result<Probe, CheckOutcome>,
) -> bool {
    match answer {
        Err(e) => r matches Err(c) && c@ == OutcomeView::Fail("kernel compile failed: "@ + e@),
        Ok(image) => r matches Ok(p) && p.runs(
            image@,
            "accum"@,
            LaunchConfig {
                grid_dim: (1, 1, 1),
                block_dim: (256, 1, 1),
                shared_mem_bytes: 0,
            },
            seq![ProbeArg::A, ProbeArg::Accumulator, ProbeArg::Int(256)],
        ),
    }
}

/// What to capture for the fourth check, or why it failed already, for what the
/// compiler answered.
pub fn graph_probe(answer: Result<String, String>) -> (r: Result<Probe, CheckOutcome>)
    ensures
        graph_probe_for(answer, r),
{
    match answer {
        Err(e) => {
            let mut s = String::new();
            s.append("kernel compile failed: ");
            s.append(e.as_str());
            Err(CheckOutcome::Fail(s))
        },
        Ok(ptx) => {
            Ok(
                Probe {
                    ptx,
                    launch: Launch {
                        kernel: "accum",
                        config: LaunchConfig {
                            grid_dim: (1, 1, 1),
                            block_dim: (GRAPH_ELEMENTS as u32, 1, 1),
                            shared_mem_bytes: 0,
                        },
                        args: vec![
                            ProbeArg::A,
                            ProbeArg::Accumulator,
                            ProbeArg::Int(GRAPH_ELEMENTS as i32),
                        ],
                    },
                },
            )
        },
    }
}

/// Can a launch be captured into a graph and replayed? Compiles the probe;
/// [`GraphRun`] says what to do with it and [`cuda_graphs_outcome`] judges what
/// came of it.
pub fn check_cuda_graphs() -> (r: Result<Probe, CheckOutcome>)
    ensures
        exists|answer: Result<String, String>|
            probe_answer(ACCUM_SRC@, "accum"@, answer) && #[trigger] graph_probe_for(answer, r),
{
    let answer: Result<String, String> = compile_probe(ACCUM_SRC, "accum");
    let ghost given = answer;
    let r: Result<Probe, CheckOutcome> = graph_probe(answer);
    assert(graph_probe_for(given, r));
    r
}

/// One thing to do on the device in the graph check.
#[derive(Debug, Clone, Copy, PartialEq, Eq, Structural)]
pub enum GraphAction {
    /// Load the probe's module and entry point.
    Load,
    /// Create a stream for the capture.
    CreateStream,
    /// Upload [`GRAPH_ELEMENTS`] ones.
    UploadOnes,
    /// Allocate a zeroed accumulator of [`GRAPH_ELEMENTS`] elements.
    AllocateAccumulator,
    /// Wait for the stream.
    SynchronizeStream,
    /// Wait for the whole context.
    SynchronizeContext,
    /// Turn off the tracking of events per allocation, which would make the
    /// capture depend on work outside it.
    DisableTracking,
    /// Begin capturing the stream.
    BeginCapture,
    /// Launch the probe into the capture.
    Launch,
    /// End the capture and instantiate the graph.
    EndCapture,
    /// Launch the graph.
    Replay,
    /// Read the accumulator back.
    ReadBack,
    /// Turn the tracking of events back on.
    EnableTracking,
    /// Nothing is left to do.
    Stop,
}

/// What came of an action.
#[derive(Debug)]
pub enum GraphEvent {
    /// It succeeded.
    Done,
    /// The capture ended without a graph.
    NoGraph,
    /// It failed, with the driver's error.
    Failed(String),
}

/// How the graph check ended.
#[derive(Debug)]
pub enum GraphEnd {
    /// Every action was carried out.
    Completed,
    /// The capture produced no graph.
    NoGraph,
    /// An action failed.
    Failed(String),
}

/// Where the graph check stands.
#[derive(Debug)]
pub enum GraphRun {
    /// At an action of the script.
    Running(usize),
    /// Restoring event tracking, whatever happened before.
    Restoring(GraphEnd),
    /// Over.
    Finished(GraphEnd),
}

/// The actions up to the read-back, in order. Everything outstanding is drained
/// before tracking is turned off, so that nothing in flight can be reordered.
pub open spec fn script() -> Seq<GraphAction> {
    seq![
        GraphAction::Load,
        GraphAction::CreateStream,
        GraphAction::UploadOnes,
        GraphAction::AllocateAccumulator,
        GraphAction::SynchronizeStream,
        GraphAction::SynchronizeContext,
        GraphAction::DisableTracking,
        GraphAction::BeginCapture,
        GraphAction::Launch,
        GraphAction::EndCapture,
        GraphAction::Replay,
        GraphAction::Replay,
        GraphAction::Replay,
        GraphAction::Replay,
        GraphAction::Replay,
        GraphAction::SynchronizeStream,
        GraphAction::ReadBack,
    ]
}

/// Actions of the script.
pub const SCRIPT_LEN: usize = 17;

impl GraphRun {
    /// The script is not exceeded.
    pub open spec fn well_formed(self) -> bool {
        self matches GraphRun::Running(at) ==> at < SCRIPT_LEN
    }

    /// What to do next.
    pub open spec fn next_action(self) -> GraphAction {
        match self {
            GraphRun::Running(at) => script()[at as int],
            GraphRun::Restoring(_) => GraphAction::EnableTracking,
            GraphRun::Finished(_) => GraphAction::Stop,
        }
    }

    /// Where the check stands after `event`.
    pub open spec fn after(self, event: GraphEvent) -> GraphRun {
        match self {
            GraphRun::Running(at) => match event {
                GraphEvent::Done => if at + 1 < SCRIPT_LEN {
                    GraphRun::Running((at + 1) as usize)
                } else {
                    GraphRun::Restoring(GraphEnd::Completed)
                },
                GraphEvent::NoGraph => GraphRun::Restoring(GraphEnd::NoGraph),
                GraphEvent::Failed(e) => GraphRun::Restoring(GraphEnd::Failed(e)),
            },
            GraphRun::Restoring(end) => GraphRun::Finished(end),
            GraphRun::Finished(end) => GraphRun::Finished(end),
        }
    }

    /// The beginning.
    pub fn start() -> (g: Self)
        ensures
            g == GraphRun::Running(0),
            g.well_formed(),
    {
        GraphRun::Running(0)
    }

    /// What to do next.
    pub fn action(&self) -> (a: GraphAction)
        requires
            self.well_formed(),
        ensures
            a == self.next_action(),
    {
        match self {
            GraphRun::Running(at) => match *at {
                0 => GraphAction::Load,
                1 => GraphAction::CreateStream,
                2 => GraphAction::UploadOnes,
                3 => GraphAction::AllocateAccumulator,
                4 => GraphAction::SynchronizeStream,
                5 => GraphAction::SynchronizeContext,
                6 => GraphAction::DisableTracking,
                7 => GraphAction::BeginCapture,
                8 => GraphAction::Launch,
                9 => GraphAction::EndCapture,
                10 | 11 | 12 | 13 | 14 => GraphAction::Replay,
                15 => GraphAction::SynchronizeStream,
                _ => GraphAction::ReadBack,
            },
            GraphRun::Restoring(_) => GraphAction::EnableTracking,
            GraphRun::Finished(_) => GraphAction::Stop,
        }
    }

    /// Where the check stands after `event`.
    pub fn advance(self, event: GraphEvent) -> (g: Self)
        requires
            self.well_formed(),
        ensures
            g == self.after(event),
            g.well_formed(),
    {
        match self {
            GraphRun::Running(at) => match event {
                GraphEvent::Done => {
                    if at + 1 < SCRIPT_LEN {
                        GraphRun::Running(at + 1)
                    } else {
                        GraphRun::Restoring(GraphEnd::Completed)
                    }
                },
                GraphEvent::NoGraph => GraphRun::Restoring(GraphEnd::NoGraph),
                GraphEvent::Failed(e) => GraphRun::Restoring(GraphEnd::Failed(e)),
            },
            GraphRun::Restoring(end) => GraphRun::Finished(end),
            GraphRun::Finished(end) => GraphRun::Finished(end),
        }
    }
}

/// The outcome of the fourth check for how its run ended and what the
/// accumulator held.
pub open spec fn cuda_graphs_verdict(end: GraphEnd, accumulator: Option<Measured>) -> OutcomeView {
    match end {
        GraphEnd::Failed(e) => OutcomeView::Fail("graph capture or replay failed: "@ + e@),
        GraphEnd::NoGraph => OutcomeView::Fail("stream capture produced no graph"@),
        GraphEnd::Completed => match accumulator {
            None => OutcomeView::Fail("stream capture produced no graph"@),
            Some(m) => if m.close {
                OutcomeView::Pass(
                    "captured a kernel launch and replayed it "@ + text::decimal(
                        GRAPH_REPLAYS as nat,
                    )
                        + "x; accumulator advanced exactly once per replay (max abs error "@
                        + m.error@ + ")"@,
                )
            } else {
                OutcomeView::Fail(
                    "graph replayed but device state is wrong: expected "@ + text::decimal(
                        GRAPH_REPLAYS as nat,
                    ) + ", max abs error "@ + m.error@,
                )
            },
        },
    }
}

/// The outcome of the fourth check for how its run ended and what the
/// accumulator held. Each replay adds one to every element, so the accumulator
/// tells how often the graph ran; an empty one means that there was no graph.
pub fn cuda_graphs_outcome(end: GraphEnd, accumulator: Option<Measured>) -> (c: CheckOutcome)
    ensures
        c@ == cuda_graphs_verdict(end, accumulator),
{
    let mut s = String::new();
    match end {
        GraphEnd::Failed(e) => {
            s.append("graph capture or replay failed: ");
            s.append(e.as_str());
            CheckOutcome::Fail(s)
        },
        GraphEnd::NoGraph => {
            s.append("stream capture produced no graph");
            CheckOutcome::Fail(s)
        },
        GraphEnd::Completed => match accumulator {
            None => {
                s.append("stream capture produced no graph");
                CheckOutcome::Fail(s)
            },
            Some(m) => {
                if m.close {
                    s.append("captured a kernel launch and replayed it ");
                    push_decimal(&mut s, GRAPH_REPLAYS);
                    s.append("x; accumulator advanced exactly once per replay (max abs error ");
                    s.append(m.error.as_str());
                    s.append(")");
                    CheckOutcome::Pass(s)
                } else {
                    s.append("graph replayed but device state is wrong: expected ");
                    push_decimal(&mut s, GRAPH_REPLAYS);
                    s.append(", max abs error ");
                    s.append(m.error.as_str());
                    CheckOutcome::Fail(s)
                }
            },
        },
    }
}

/// Whether a compute capability is sm_75 or later.
pub fn supported(major: i32, minor: i32) -> (b: bool)
    ensures
        b == (major > 7 || (major == 7 && minor >= 5)),
        0 <= minor < 10 ==> (b <==> major * 10 + minor >= 75),
{
    major > 7 || (major == 7 && minor >= 5)
}

/// What is known of a device's compute capability.
#[derive(Debug)]
pub struct DeviceCapability {
    /// The capability as text.
    pub text: String,
    /// Whether it is sm_75 or later.
    pub supported: bool,
}

/// What to do once the device was asked for.
#[derive(Debug)]
pub enum SpikeStep {
    /// The report is complete.
    Report(SpikeReport),
    /// The device is usable: run the three device checks.
    RunDeviceChecks { emits_sm75_ptx: CheckOutcome },
}

/// A report in which all four checks were skipped for one reason.
pub open spec fn all_skipped(why: Seq<char>) -> Seq<OutcomeView> {
    seq![
        OutcomeView::Skipped(why),
        OutcomeView::Skipped(why),
        OutcomeView::Skipped(why),
        OutcomeView::Skipped(why),
    ]
}

/// Why everything is skipped without a context.
pub open spec fn no_context(ordinal: usize, error: Seq<char>) -> Seq<char> {
    "no CUDA context on device "@ + text::decimal(ordinal as nat) + ": "@ + error
}

/// Why the device checks are skipped on a device that is too old.
pub open spec fn too_old(ordinal: usize, capability: Seq<char>) -> Seq<char> {
    "device "@ + text::decimal(ordinal as nat) + " is compute "@ + capability
        + " , below the sm_75 minimum"@
}

/// A report in which all four checks were skipped for one reason.
pub fn skip_all(why: &str) -> (r: SpikeReport)
    ensures
        r@ == all_skipped(why@),
{
    SpikeReport {
        emits_sm75_ptx: CheckOutcome::Skipped(why.to_owned()),
        inline_ptx: CheckOutcome::Skipped(why.to_owned()),
        warp_intrinsics: CheckOutcome::Skipped(why.to_owned()),
        cuda_graphs: CheckOutcome::Skipped(why.to_owned()),
    }
}

/// The step for a device that has a context: a report with the device checks
/// skipped if the device is known to be too old, and the device checks
/// otherwise.
pub open spec fn step_for(
    ordinal: usize,
    emits_sm75_ptx: OutcomeView,
    capability: Option<DeviceCapability>,
    step: SpikeStep,
) -> bool {
    match capability {
        Some(c) if !c.supported => step matches SpikeStep::Report(r) && r@ == seq![
            emits_sm75_ptx,
            OutcomeView::Skipped(too_old(ordinal, c.text@)),
            OutcomeView::Skipped(too_old(ordinal, c.text@)),
            OutcomeView::Skipped(too_old(ordinal, c.text@)),
        ],
        _ => step matches SpikeStep::RunDeviceChecks { emits_sm75_ptx: c } && c@ == emits_sm75_ptx,
    }
}

/// The step for a device that has a context.
pub fn step_with_context(
    ordinal: usize,
    emits_sm75_ptx: CheckOutcome,
    capability: Option<DeviceCapability>,
) -> (step: SpikeStep)
    ensures
        step_for(ordinal, emits_sm75_ptx@, capability, step),
{
    if let Some(c) = &capability {
        if !c.supported {
            let mut why = String::new();
            why.append("device ");
            push_decimal(&mut why, ordinal);
            why.append(" is compute ");
            why.append(c.text.as_str());
            why.append(" , below the sm_75 minimum");
            return SpikeStep::Report(
                SpikeReport {
                    emits_sm75_ptx,
                    inline_ptx: CheckOutcome::Skipped(why.clone()),
                    warp_intrinsics: CheckOutcome::Skipped(why.clone()),
                    cuda_graphs: CheckOutcome::Skipped(why),
                },
            );
        }
    }
    SpikeStep::RunDeviceChecks { emits_sm75_ptx }
}

/// Start the check against device `ordinal`, given its context or why there is
/// none, and its capability where that is known.
///
/// Without a context everything is skipped. PTX emission needs only the
/// compiler, so it is checked before the device is judged.
pub fn run(ordinal: usize, context: Result<Option<DeviceCapability>, String>) -> (step: SpikeStep)
    ensures
        match context {
            Err(e) => step matches SpikeStep::Report(r) && r@ == all_skipped(
                no_context(ordinal, e@),
            ),
            Ok(capability) => exists|answer: Result<String, String>|
                probe_answer(VECADD_SRC@, "vecadd"@, answer) && step_for(
                    ordinal,
                    #[trigger] sm75_verdict(answer),
                    capability,
                    step,
                ),
        },
{
    match context {
        Err(e) => {
            let mut why = String::new();
            why.append("no CUDA context on device ");
            push_decimal(&mut why, ordinal);
            why.append(": ");
            why.append(e.as_str());
            SpikeStep::Report(skip_all(why.as_str()))
        },
        Ok(capability) => {
            let emits_sm75_ptx: CheckOutcome = check_sm75_ptx();
            step_with_context(ordinal, emits_sm75_ptx, capability)
        },
    }
}

/// A skipped check has neither passed nor run.
pub proof fn law_skipped_is_not_passing(why: Seq<char>)
    ensures
        !(OutcomeView::Skipped(why) is Pass),
        !complete(all_skipped(why)),
{
    let report = all_skipped(why);
    assert(report[0] is Skipped);
}

/// A report in which everything ran and nothing that ran failed passes every
/// check.
pub proof fn law_complete_success_is_all_passes(report: Seq<OutcomeView>, i: int)
    requires
        complete(report),
        no_failure(report),
        0 <= i < report.len(),
    ensures
        report[i] is Pass,
{
    assert(!(report[i] is Skipped));
}

/// One failure is reported whatever the other checks gave.
pub proof fn law_a_failure_is_reported(report: Seq<OutcomeView>, i: int)
    requires
        0 <= i < report.len(),
        report[i] is Fail,
    ensures
        !no_failure(report),
{
    assert(!(report[i] is Pass || report[i] is Skipped));
}

/// The first check runs wherever a compiler answers, and passes exactly on PTX
/// that carries the directive.
pub proof fn law_sm75_passes_on_the_directive_alone(answer: Result<String, String>)
    ensures
        !(sm75_verdict(answer) is Skipped),
        sm75_verdict(answer) is Pass <==> (answer matches Ok(src) && search::holds(
            src@,
            ".target sm_75"@,
        )),
{
}

/// Event tracking is turned off only after everything outstanding was drained,
/// and the capture holds exactly one launch.
pub proof fn law_capture_is_isolated()
    ensures
        script().len() == SCRIPT_LEN,
        script()[4] == GraphAction::SynchronizeStream,
        script()[5] == GraphAction::SynchronizeContext,
        script()[6] == GraphAction::DisableTracking,
        script()[7] == GraphAction::BeginCapture,
        script()[8] == GraphAction::Launch,
        script()[9] == GraphAction::EndCapture,
        forall|i: int|
            0 <= i < SCRIPT_LEN && #[trigger] script()[i] == GraphAction::DisableTracking ==> i
                == 6,
        forall|i: int|
            0 <= i < SCRIPT_LEN && #[trigger] script()[i] == GraphAction::Launch ==> i == 8,
        forall|i: int|
            0 <= i < SCRIPT_LEN ==> (#[trigger] script()[i] == GraphAction::Replay <==> 10 <= i < 10
                + GRAPH_REPLAYS),
{
}

/// Whatever fails, event tracking is turned back on before the check is over:
/// the check ends only from the action that restores it, and that action always
/// ends it.
pub proof fn law_tracking_is_always_restored(g: GraphRun, event: GraphEvent)
    requires
        g.well_formed(),
    ensures
        !(g is Finished) && g.after(event) is Finished ==> g.next_action()
            == GraphAction::EnableTracking,
        g.next_action() == GraphAction::EnableTracking ==> g.after(event) is Finished,
        g is Running ==> !(g.after(event) is Finished),
{
    if let GraphRun::Running(at) = g {
        assert(script()[at as int] != GraphAction::EnableTracking);
    }
}

/// Actions still to come, if nothing fails.
pub open spec fn remaining(g: GraphRun) -> int {
    match g {
        GraphRun::Running(at) => SCRIPT_LEN - at + 1,
        GraphRun::Restoring(_) => 1,
        GraphRun::Finished(_) => 0,
    }
}

/// The check ends: every event brings it nearer to its end.
pub proof fn law_graph_run_terminates(g: GraphRun, event: GraphEvent)
    requires
        g.well_formed(),
        !(g is Finished),
    ensures
        0 <= remaining(g.after(event)) < remaining(g),
{
}

/// A failure is carried to the end unchanged.
pub proof fn law_failure_is_kept(at: usize, e: String, event: GraphEvent)
    requires
        at < SCRIPT_LEN,
    ensures
        GraphRun::Running(at).after(GraphEvent::Failed(e)).after(event) == GraphRun::Finished(
            GraphEnd::Failed(e),
        ),
{
}

} // verus!
