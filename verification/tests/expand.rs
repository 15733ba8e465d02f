//! Tests for interpolation and stage expansion.
use dvctree::DVCError;
use dvctree::interpolate::InterpContext;
use dvctree::paths::RelPath;
use dvctree::render::{expand_entries, expanded_key};
use dvctree::schemas::out::OutFile;
use dvctree::schemas::pipeline::{PipelineStage, StageEntry};
use dvctree::walk::{parse_source, FileKind, Src};

fn s(text: &str) -> String {
    String::from(text)
}

fn out(path: &str) -> OutFile {
    OutFile { path: RelPath::new(s(path)), cache: true, md5: None, size: None }
}

fn stage(cmd: &str, outs: Vec<OutFile>) -> PipelineStage {
    PipelineStage { cmd: s(cmd), wdir: None, deps: Vec::new(), outs, metrics: Vec::new() }
}

#[test]
fn interpolate_substitutes_known_variables() {
    let ctx = InterpContext::create(vec![(s("item"), s("x"))]);
    match ctx.interpolate("run ${item}") {
        Ok(r) => assert_eq!(r, s("run x")),
        Err(_) => panic!("a known variable must substitute"),
    }
    match ctx.interpolate("no placeholders") {
        Ok(r) => assert_eq!(r, s("no placeholders")),
        Err(_) => panic!("plain text must render unchanged"),
    }
}

#[test]
fn non_ascii_whitespace_at_placeholder_edges_is_a_typed_error() {
    let ctx = InterpContext::create(vec![(s("x"), s("v"))]);
    match ctx.interpolate("${\u{a0}x}") {
        Err(DVCError::DecodeFailure(_)) => (),
        _ => panic!("a no-break space leading a placeholder must be rejected, not crash"),
    }
    match ctx.interpolate("${x\u{2028}}") {
        Err(DVCError::DecodeFailure(_)) => (),
        _ => panic!("a line separator trailing a placeholder must be rejected, not crash"),
    }
    match ctx.interpolate("${ x}") {
        Ok(r) => assert_eq!(r, s(" v")),
        Err(_) => panic!("ascii whitespace inside a placeholder stays fine"),
    }
}

#[test]
fn non_ascii_whitespace_away_from_placeholder_edges_renders() {
    let ctx = InterpContext::create(vec![(s("item"), s("x")), (s("a\u{a0}b"), s("w"))]);
    match ctx.interpolate("a\u{a0}b") {
        Ok(r) => assert_eq!(r, s("a\u{a0}b")),
        Err(_) => panic!("a reference-free string must come back unchanged"),
    }
    match ctx.interpolate("run\u{a0}${item}") {
        Ok(r) => assert_eq!(r, s("run\u{a0}x")),
        Err(_) => panic!("non-ascii whitespace in plain text must not block rendering"),
    }
    match ctx.interpolate("${a\u{a0}b}") {
        Ok(r) => assert_eq!(r, s("w")),
        Err(_) => panic!("non-ascii whitespace strictly inside a name must not block rendering"),
    }
}

#[test]
fn reference_free_stage_interpolates_to_itself() {
    let ctx = InterpContext::create(vec![(s("item"), s("x"))]);
    let st = stage("a\u{a0}b", vec![out("plain.txt")]);
    match st.interpolate(&ctx) {
        Ok(r) => {
            assert_eq!(r.cmd, s("a\u{a0}b"));
            assert!(r.wdir.is_none());
            assert_eq!(r.outs.len(), 1);
            assert_eq!(r.outs[0].path.as_str(), "plain.txt");
        },
        Err(_) => panic!("substitution with nothing to substitute is the identity"),
    }
}

#[test]
fn non_ascii_whitespace_in_plain_text_expands() {
    let entry = StageEntry::MultiStage {
        foreach: vec![s("x")],
        stage: stage("run\u{a0}${ item}", Vec::new()),
    };
    let specs = vec![(s("train"), entry)];
    let expanded = match expand_entries(&specs) {
        Ok(v) => v,
        Err(_) => panic!("non-ascii whitespace in plain template text must not fail expansion"),
    };
    assert_eq!(expanded.len(), 1);
    assert_eq!(expanded[0].0, s("train@x"));
    assert_eq!(expanded[0].1.cmd, s("run\u{a0} x"));
}

#[test]
fn non_ascii_whitespace_at_an_edge_fails_the_expansion_as_a_typed_error() {
    let entry = StageEntry::MultiStage {
        foreach: vec![s("x")],
        stage: stage("run ${item\u{a0}}", Vec::new()),
    };
    let specs = vec![(s("train"), entry)];
    match expand_entries(&specs) {
        Err(DVCError::DecodeFailure(_)) => (),
        _ => panic!("whitespace the engine cannot trim must fail the expansion, not crash"),
    }
}

#[test]
fn interpolate_fails_on_undefined_variable() {
    let ctx = InterpContext::create(vec![(s("item"), s("x"))]);
    match ctx.interpolate("${missing}") {
        Err(DVCError::UndefinedVariable(_)) => (),
        _ => panic!("an absent variable must fail with the undefined-variable error"),
    }
}

#[test]
fn interpolate_path_renders_and_reparses() {
    let ctx = InterpContext::create(vec![(s("item"), s("x"))]);
    let p = RelPath::new(s("out-${item}.txt"));
    match p.interpolate(&ctx) {
        Ok(q) => assert_eq!(q.as_str(), "out-x.txt"),
        Err(_) => panic!("a path with a known variable must render"),
    }
}

#[test]
fn later_binding_shadows_earlier_one() {
    let ctx = InterpContext::create(vec![(s("item"), s("x")), (s("item"), s("y"))]);
    match ctx.interpolate("${item}") {
        Ok(r) => assert_eq!(r, s("y")),
        Err(_) => panic!("the shadowed variable must still substitute"),
    }
}

#[test]
fn expanded_key_joins_name_and_label() {
    assert_eq!(expanded_key("train", "x"), s("train@x"));
}

#[test]
fn record_interpolation_rewrites_only_the_path() {
    let ctx = InterpContext::create(vec![(s("item"), s("x"))]);
    let o = OutFile {
        path: RelPath::new(s("out-${item}.txt")),
        cache: false,
        md5: Some(s("abc")),
        size: Some(3),
    };
    match o.interpolate(&ctx) {
        Ok(r) => {
            assert_eq!(r.path.as_str(), "out-x.txt");
            assert!(!r.cache);
            assert_eq!(r.md5, Some(s("abc")));
            assert_eq!(r.size, Some(3));
        },
        Err(_) => panic!("a path over the item variable must render"),
    }
}

#[test]
fn foreach_expands_once_per_label() {
    let entry = StageEntry::MultiStage {
        foreach: vec![s("x"), s("y")],
        stage: stage("run ${item}", vec![out("out-${item}.txt")]),
    };
    let specs = vec![(s("train"), entry)];
    let expanded = match expand_entries(&specs) {
        Ok(v) => v,
        Err(_) => panic!("expansion with only the item variable must succeed"),
    };
    assert_eq!(expanded.len(), 2);
    assert_eq!(expanded[0].0, s("train@x"));
    assert_eq!(expanded[0].1.cmd, s("run x"));
    assert_eq!(expanded[0].1.outs.len(), 1);
    assert_eq!(expanded[0].1.outs[0].path.as_str(), "out-x.txt");
    assert_eq!(expanded[1].0, s("train@y"));
    assert_eq!(expanded[1].1.cmd, s("run y"));
    assert_eq!(expanded[1].1.outs[0].path.as_str(), "out-y.txt");
}

#[test]
fn plain_entry_is_copied_through() {
    let specs = vec![(s("build"), StageEntry::SingleStage(stage("make", vec![out("bin")])))];
    let expanded = match expand_entries(&specs) {
        Ok(v) => v,
        Err(_) => panic!("a plain entry expands without interpolation"),
    };
    assert_eq!(expanded.len(), 1);
    assert_eq!(expanded[0].0, s("build"));
    assert_eq!(expanded[0].1.cmd, s("make"));
    assert_eq!(expanded[0].1.outs[0].path.as_str(), "bin");
}

#[test]
fn colliding_expanded_keys_keep_the_later_stage() {
    let specs = vec![
        (s("job"), StageEntry::SingleStage(stage("first", Vec::new()))),
        (s("job"), StageEntry::SingleStage(stage("second", Vec::new()))),
    ];
    let expanded = match expand_entries(&specs) {
        Ok(v) => v,
        Err(_) => panic!("plain entries expand"),
    };
    assert_eq!(expanded.len(), 1);
    assert_eq!(expanded[0].0, s("job"));
    assert_eq!(expanded[0].1.cmd, s("second"));
}

#[test]
fn duplicate_labels_collapse_to_the_last_instance() {
    let entry = StageEntry::MultiStage {
        foreach: vec![s("x"), s("x")],
        stage: stage("run ${item}", Vec::new()),
    };
    let specs = vec![(s("train"), entry)];
    let expanded = match expand_entries(&specs) {
        Ok(v) => v,
        Err(_) => panic!("duplicate labels still expand"),
    };
    assert_eq!(expanded.len(), 1);
    assert_eq!(expanded[0].0, s("train@x"));
}

#[test]
fn expansion_fails_on_foreign_variable() {
    let entry = StageEntry::MultiStage {
        foreach: vec![s("x")],
        stage: stage("run ${other}", Vec::new()),
    };
    let specs = vec![(s("train"), entry)];
    match expand_entries(&specs) {
        Err(DVCError::UndefinedVariable(_)) => (),
        _ => panic!("a variable other than item must fail the expansion"),
    }
}

#[test]
fn parsed_pipeline_expands_like_the_built_one() {
    let text = "stages:\n  train:\n    foreach:\n    - x\n    - y\n    do:\n      cmd: run ${item}\n      outs:\n      - out-${item}.txt\n";
    let p = match parse_source(FileKind::Pipeline, text) {
        Ok(Src::Pipe(p)) => p,
        _ => panic!("a repeated stage must parse"),
    };
    let expanded = match expand_entries(&p.stages) {
        Ok(v) => v,
        Err(_) => panic!("the parsed pipeline must expand"),
    };
    assert_eq!(expanded.len(), 2);
    assert_eq!(expanded[0].0, s("train@x"));
    assert_eq!(expanded[1].0, s("train@y"));
}

#[test]
fn foreach_needs_a_list_and_a_definition() {
    match parse_source(FileKind::Pipeline, "stages:\n  t:\n    foreach: x\n") {
        Err(DVCError::DecodeFailure(_)) => (),
        _ => panic!("a scalar foreach must fail"),
    }
    match parse_source(FileKind::Pipeline, "stages:\n  t:\n    foreach:\n    - x\n") {
        Err(DVCError::DecodeFailure(_)) => (),
        _ => panic!("a repeated stage without a definition must fail"),
    }
}
