use webasm::formats::{OutputFormat, RenderRequest, Renderer};
use webasm::pipeline::{Action, AssembleRun, Event, Stage, SOURCE_NAME};
use webasm::strings::{wasm_get_version, wasm_string_get_len, StringTable};

#[test]
fn codes_select_formats() {
    let expected = [
        (0, Renderer::AnnotatedHex, None),
        (1, Renderer::AnnotatedBin, None),
        (2, Renderer::HexDump, None),
        (3, Renderer::BinDump, None),
        (4, Renderer::HexStr, None),
        (5, Renderer::BinStr, None),
        (6, Renderer::Mif, None),
        (7, Renderer::IntelHex, None),
        (8, Renderer::Comma, Some(10)),
        (9, Renderer::Comma, Some(16)),
        (10, Renderer::CArray, Some(10)),
        (11, Renderer::CArray, Some(16)),
        (12, Renderer::Logisim, Some(8)),
        (13, Renderer::Logisim, Some(16)),
    ];
    for (code, renderer, param) in expected {
        let f = OutputFormat::from_code(code).unwrap();
        assert_eq!(f.request(40), RenderRequest { renderer, start: 0, end: 40, param });
    }
}

#[test]
fn code_past_last_is_rejected() {
    assert_eq!(OutputFormat::from_code(14), None);
    assert_eq!(OutputFormat::from_code(u32::MAX), None);
}

#[test]
fn every_code_dispatches_on_empty_output() {
    for code in 0..14u32 {
        let f = OutputFormat::from_code(code).unwrap();
        let mut run = AssembleRun::new(f);
        assert_eq!(run.step(Event::Processed), Action::Wrapup);
        match run.step(Event::WrappedUp { artifact_len: 0 }) {
            Action::Render(r) => assert_eq!((r.start, r.end), (0, 0)),
            a => panic!("unexpected action {:?}", a),
        }
        assert_eq!(run.stage, Stage::Rendering);
    }
}

#[test]
fn successful_run_renders_hex_dump() {
    let mut t = StringTable::new();
    let mut run = AssembleRun::new(OutputFormat::from_code(2).unwrap());
    assert_eq!(SOURCE_NAME, "asm");
    assert_eq!(run.stage, Stage::Processing);
    assert_eq!(run.step(Event::Processed), Action::Wrapup);
    let a = run.step(Event::WrappedUp { artifact_len: 1 });
    assert_eq!(
        a,
        Action::Render(RenderRequest { renderer: Renderer::HexDump, start: 0, end: 1, param: None })
    );
    assert!(run.succeeded());
    let text = b"00000 | 00\n".to_vec();
    let h = run.finish(&mut t, text.clone());
    assert_eq!(run.stage, Stage::Finished);
    assert_eq!(t.bytes(h), text);
}

#[test]
fn failure_in_either_phase_reports_for_any_code() {
    for code in 0..14u32 {
        let f = OutputFormat::from_code(code).unwrap();
        let mut early = AssembleRun::new(f);
        assert_eq!(early.step(Event::Failed), Action::PrintReport);
        assert_eq!(early.stage, Stage::Reporting);
        assert!(!early.succeeded());

        let mut late = AssembleRun::new(f);
        assert_eq!(late.step(Event::Processed), Action::Wrapup);
        assert_eq!(late.step(Event::Failed), Action::PrintReport);
        assert_eq!(late.stage, Stage::Reporting);
    }
}

#[test]
fn failed_run_delivers_diagnostics() {
    let mut t = StringTable::new();
    let mut run = AssembleRun::new(OutputFormat::HexDump);
    assert_eq!(run.step(Event::Failed), Action::PrintReport);
    let report = b"error: asm:1:1: unknown instruction\n".to_vec();
    let h = run.finish(&mut t, report.clone());
    assert_eq!(t.bytes(h), report);
    assert!(wasm_string_get_len(&t, h) > 0);
}

#[test]
fn out_of_order_events_are_ignored() {
    let mut run = AssembleRun::new(OutputFormat::Mif);
    assert_eq!(run.step(Event::WrappedUp { artifact_len: 3 }), Action::Idle);
    assert_eq!(run.stage, Stage::Processing);
    assert_eq!(run.step(Event::Processed), Action::Wrapup);
    assert_eq!(run.step(Event::Processed), Action::Idle);
    assert_eq!(run.stage, Stage::WrappingUp);
    assert_eq!(run.step(Event::Failed), Action::PrintReport);
    assert_eq!(run.step(Event::Failed), Action::Idle);
    assert_eq!(run.stage, Stage::Reporting);
}

#[test]
fn version_unaffected_by_assembly() {
    let mut t = StringTable::new();
    let before = wasm_get_version(&mut t);
    let mut run = AssembleRun::new(OutputFormat::IntelHex);
    run.step(Event::Failed);
    run.finish(&mut t, b"error".to_vec());
    let after = wasm_get_version(&mut t);
    assert!(wasm_string_get_len(&t, after) > 0);
    assert_eq!(t.bytes(before), t.bytes(after));
}
