//! The toolchain check.

use xabe_cuda::search::{characters, contains, find_line};
use xabe_cuda::spike::{
    cuda_graphs_outcome, graph_probe, inline_ptx_outcome, inline_ptx_probe, run, skip_all,
    sm75_outcome, step_with_context, supported, warp_outcome, warp_probe, DeviceCapability, GraphAction,
    GraphEnd, GraphEvent, GraphRun, Measured, ProbeArg, SpikeStep, SCRIPT_LEN,
};
use xabe_cuda::{CheckOutcome, SpikeReport, TOOLCHAIN_DECISION};

#[test]
fn a_skipped_check_is_not_a_passing_check() {
    let skipped = CheckOutcome::Skipped("no device".into());
    assert!(!skipped.is_pass());
    assert!(!skipped.ran());
}

#[test]
fn a_report_of_all_skips_does_not_claim_success_by_running() {
    let r = SpikeReport {
        emits_sm75_ptx: CheckOutcome::Skipped("x".into()),
        inline_ptx: CheckOutcome::Skipped("x".into()),
        warp_intrinsics: CheckOutcome::Skipped("x".into()),
        cuda_graphs: CheckOutcome::Skipped("x".into()),
    };
    assert!(!r.all_ran(), "nothing ran, so the spike is not complete");
}

#[test]
fn a_failure_is_reported_even_when_other_checks_pass() {
    let r = SpikeReport {
        emits_sm75_ptx: CheckOutcome::Pass("ok".into()),
        inline_ptx: CheckOutcome::Fail("no escape hatch".into()),
        warp_intrinsics: CheckOutcome::Pass("ok".into()),
        cuda_graphs: CheckOutcome::Pass("ok".into()),
    };
    assert!(!r.all_ran_checks_passed());
}

#[test]
fn labels_line_up_with_checks() {
    let r = SpikeReport {
        emits_sm75_ptx: CheckOutcome::Pass("a".into()),
        inline_ptx: CheckOutcome::Pass("b".into()),
        warp_intrinsics: CheckOutcome::Pass("c".into()),
        cuda_graphs: CheckOutcome::Pass("d".into()),
    };
    assert_eq!(r.checks().len(), SpikeReport::LABELS.len());
}

fn pass(s: &str) -> CheckOutcome {
    CheckOutcome::Pass(s.to_string())
}

fn fail(s: &str) -> CheckOutcome {
    CheckOutcome::Fail(s.to_string())
}

fn skipped(s: &str) -> CheckOutcome {
    CheckOutcome::Skipped(s.to_string())
}

fn measured(close: bool) -> Measured {
    Measured { error: "1.00e-7".to_string(), close }
}

#[test]
fn outcomes_read_as_report_lines() {
    assert_eq!(pass("a").message(), "PASS    a");
    assert_eq!(fail("b").message(), "FAIL    b");
    assert_eq!(skipped("c").message(), "SKIPPED c");
    assert!(fail("b").ran() && !fail("b").is_pass());
    assert_eq!(TOOLCHAIN_DECISION, "cudarc 0.19 + NVRTC");
    assert_eq!(SpikeReport::LABELS[3], "Q4 CUDA graph capture and replay");
}

#[test]
fn a_complete_report_without_failures_is_all_passes() {
    let r = SpikeReport {
        emits_sm75_ptx: pass("a"),
        inline_ptx: pass("b"),
        warp_intrinsics: pass("c"),
        cuda_graphs: pass("d"),
    };
    assert!(r.all_ran() && r.all_ran_checks_passed());
    assert!(r.checks().iter().all(|c| c.is_pass()));
    let partly = SpikeReport { inline_ptx: skipped("x"), ..r };
    assert!(partly.all_ran_checks_passed() && !partly.all_ran());
}

#[test]
fn the_sm75_check_reads_the_target_directive() {
    let ptx = |s: &str| sm75_outcome(Ok(s.to_string()));
    assert_eq!(
        ptx(".version 8.0\n.target sm_75\n.address_size 64\n"),
        pass("NVRTC emits PTX with `.target sm_75`"),
    );
    assert_eq!(
        ptx(".version 8.0\n \t.target sm_80, texmode \r\n.address_size 64"),
        fail("expected `.target sm_75`, PTX carries `.target sm_80, texmode`"),
    );
    assert_eq!(
        ptx(".version 8.0\n// a .target sm_80\n"),
        fail("expected `.target sm_75`, PTX carries `<no .target directive>`"),
    );
    assert_eq!(ptx(""), fail("expected `.target sm_75`, PTX carries `<no .target directive>`"));
    assert_eq!(
        sm75_outcome(Err("NVRTC_ERROR_INVALID_OPTION".to_string())),
        fail("NVRTC rejected compute_75: NVRTC_ERROR_INVALID_OPTION"),
    );
}

#[test]
fn lines_are_found_and_trimmed_as_the_standard_library_does() {
    let texts = [
        "",
        "\n",
        ".target",
        "\u{3000}\u{a0}.target x\u{2003}\n",
        "a\r\n\t.target y \r\nz",
        "no\nnone\n.targe t",
        "one\n.target 1\n.target 2",
    ];
    for text in texts {
        let expected = text
            .lines()
            .find(|l| l.trim_start().starts_with(".target"))
            .map(|l| l.trim().to_string());
        assert_eq!(find_line(text, ".target"), expected, "{text:?}");
        for pattern in ["", ".target", "t\n", "zz"] {
            assert_eq!(
                contains(&characters(text), &characters(pattern)),
                text.contains(pattern),
            );
        }
    }
}

#[test]
fn probes_launch_what_they_compiled() {
    let p = inline_ptx_probe(Ok("ptx".to_string())).unwrap();
    assert_eq!((p.ptx.as_str(), p.launch.kernel), ("ptx", "inline_ptx_fma"));
    assert_eq!((p.launch.config.grid_dim.0, p.launch.config.block_dim.0), (4, 256));
    assert_eq!(p.launch.args[3], ProbeArg::Int(1024));
    let p = warp_probe(Ok("ptx".to_string())).unwrap();
    assert_eq!((p.launch.kernel, p.launch.config.block_dim.0), ("warp_ops", 256));
    let p = graph_probe(Ok("ptx".to_string())).unwrap();
    assert_eq!((p.launch.kernel, p.launch.args[2]), ("accum", ProbeArg::Int(256)));
    let e = || Err("E".to_string());
    assert_eq!(
        inline_ptx_probe(e()).unwrap_err(),
        fail("inline `asm volatile` rejected by NVRTC: E"),
    );
    assert_eq!(warp_probe(e()).unwrap_err(), fail("warp intrinsics rejected by NVRTC: E"));
    assert_eq!(graph_probe(e()).unwrap_err(), fail("kernel compile failed: E"));
}

#[test]
fn measurements_decide_the_device_checks() {
    let e = || "E".to_string();
    assert_eq!(
        inline_ptx_outcome(Ok(measured(true))),
        pass(
            "`asm volatile(\"fma.rn.f32\")` compiled, launched, and matched host arithmetic \
             (max abs error 1.00e-7 over 1024 elements)",
        ),
    );
    assert_eq!(
        inline_ptx_outcome(Ok(measured(false))),
        fail("inline PTX ran but produced wrong results: max abs error 1.00e-7"),
    );
    assert_eq!(inline_ptx_outcome(Err(e())), fail("inline-PTX kernel failed to run: E"));
    assert_eq!(
        warp_outcome(Ok((measured(true), true))),
        pass(
            "__shfl_xor_sync butterfly reduction and __ballot_sync/__popc both match host \
             results across 8 warps (max abs error 1.00e-7)",
        ),
    );
    assert_eq!(
        warp_outcome(Ok((measured(true), false))),
        fail(
            "warp intrinsics produced wrong results: shuffle max abs error 1.00e-7, ballot \
             counts MISMATCHED",
        ),
    );
    assert_eq!(
        warp_outcome(Ok((measured(false), true))),
        fail(
            "warp intrinsics produced wrong results: shuffle max abs error 1.00e-7, ballot \
             counts matched",
        ),
    );
    assert_eq!(warp_outcome(Err(e())), fail("warp kernel failed to run: E"));
    assert_eq!(
        cuda_graphs_outcome(GraphEnd::Completed, Some(measured(true))),
        pass(
            "captured a kernel launch and replayed it 5x; accumulator advanced exactly once per \
             replay (max abs error 1.00e-7)",
        ),
    );
    assert_eq!(
        cuda_graphs_outcome(GraphEnd::Completed, Some(measured(false))),
        fail("graph replayed but device state is wrong: expected 5, max abs error 1.00e-7"),
    );
    for (end, m) in [(GraphEnd::NoGraph, Some(measured(true))), (GraphEnd::Completed, None)] {
        assert_eq!(cuda_graphs_outcome(end, m), fail("stream capture produced no graph"));
    }
    assert_eq!(
        cuda_graphs_outcome(GraphEnd::Failed(e()), None),
        fail("graph capture or replay failed: E"),
    );
}

/// Runs the graph check, failing at step `fail_at`, and lists its actions.
fn actions(fail_at: usize, event: fn() -> GraphEvent) -> (Vec<GraphAction>, GraphRun) {
    let mut run = GraphRun::start();
    let mut done = Vec::new();
    while run.action() != GraphAction::Stop {
        let at = done.len();
        done.push(run.action());
        run = run.advance(if at == fail_at { event() } else { GraphEvent::Done });
    }
    (done, run)
}

#[test]
fn the_graph_check_restores_event_tracking_whatever_fails() {
    let (done, end) = actions(usize::MAX, || GraphEvent::Done);
    assert_eq!(done.len(), SCRIPT_LEN + 1);
    assert!(matches!(end, GraphRun::Finished(GraphEnd::Completed)));
    assert_eq!(done.iter().filter(|a| **a == GraphAction::Replay).count(), 5);
    let at = |a: GraphAction| done.iter().position(|x| *x == a).unwrap();
    assert!(at(GraphAction::SynchronizeStream) < at(GraphAction::DisableTracking));
    assert!(at(GraphAction::SynchronizeContext) < at(GraphAction::DisableTracking));
    assert!(at(GraphAction::DisableTracking) < at(GraphAction::BeginCapture));
    assert_eq!(at(GraphAction::Launch), at(GraphAction::BeginCapture) + 1);
    assert_eq!(at(GraphAction::EndCapture), at(GraphAction::Launch) + 1);
    for i in 0..SCRIPT_LEN {
        let (done, end) = actions(i, || GraphEvent::Failed("E".to_string()));
        assert_eq!(done.len(), i + 2);
        assert_eq!(done[i + 1], GraphAction::EnableTracking);
        assert!(matches!(end, GraphRun::Finished(GraphEnd::Failed(e)) if e == "E"));
    }
    let (done, end) = actions(at(GraphAction::EndCapture), || GraphEvent::NoGraph);
    assert!(!done.contains(&GraphAction::Replay));
    assert!(matches!(end, GraphRun::Finished(GraphEnd::NoGraph)));
}

#[test]
fn without_a_context_everything_is_skipped() {
    let SpikeStep::Report(r) = run(2, Err("NO_DEVICE".to_string())) else {
        panic!("a report");
    };
    for c in r.checks() {
        assert_eq!(*c, skipped("no CUDA context on device 2: NO_DEVICE"));
    }
    assert!(!r.all_ran());
    assert!(skip_all("why").checks().iter().all(|c| **c == skipped("why")));
}

#[test]
fn the_minimum_capability_is_seven_five() {
    for (major, minor, expected) in
        [(7, 5, true), (7, 4, false), (7, 0, false), (6, 9, false), (8, 0, true), (12, 1, true)]
    {
        assert_eq!(supported(major, minor), expected, "{major}.{minor}");
    }
}

#[test]
fn an_old_device_keeps_only_the_compiler_check() {
    let old = DeviceCapability { text: "7.0".to_string(), supported: false };
    let SpikeStep::Report(r) = step_with_context(1, pass("ptx"), Some(old)) else {
        panic!("a report");
    };
    assert_eq!(r.emits_sm75_ptx, pass("ptx"));
    for c in &r.checks()[1..] {
        assert_eq!(**c, skipped("device 1 is compute 7.0 , below the sm_75 minimum"));
    }
    let new = DeviceCapability { text: "7.5".to_string(), supported: true };
    for capability in [Some(new), None] {
        assert!(matches!(
            step_with_context(1, pass("ptx"), capability),
            SpikeStep::RunDeviceChecks { emits_sm75_ptx } if emits_sm75_ptx == pass("ptx")
        ));
    }
}
