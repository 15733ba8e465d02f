//! Tests for tree assembly, lock association and output resolution.
use dvctree::{DVCError, DVCTree};
use dvctree::paths::RelPath;
use dvctree::schemas::dvcfile::SingleStage;
use dvctree::schemas::lockfile::{LockStage, LockState};
use dvctree::schemas::out::OutFile;
use dvctree::schemas::pipeline::{Pipeline, PipelineStage, StageEntry};
use dvctree::walk::Src;

fn s(text: &str) -> String {
    String::from(text)
}

fn out(path: &str) -> OutFile {
    OutFile { path: RelPath::new(s(path)), cache: true, md5: None, size: None }
}

fn repeated_pipeline() -> Pipeline {
    let stage = PipelineStage {
        cmd: s("run ${item}"),
        wdir: None,
        deps: Vec::new(),
        outs: vec![out("out-${item}.txt")],
        metrics: Vec::new(),
    };
    let entry = StageEntry::MultiStage { foreach: vec![s("x"), s("y")], stage };
    Pipeline { stages: vec![(s("train"), entry)] }
}

fn single_with_wdir() -> SingleStage {
    SingleStage {
        wdir: Some(RelPath::new(s("processed"))),
        md5: None,
        outs: vec![out("result.csv")],
        deps: Vec::new(),
    }
}

fn lock_content() -> LockState {
    let stage = LockStage { cmd: s("run x"), deps: Vec::new(), outs: vec![out("out-x.txt")] };
    LockState { schema: s("2.0"), stages: vec![(s("train"), stage)] }
}

#[test]
fn pipeline_outputs_resolve_under_the_manifest_directory() {
    let sources = vec![(s("models/dvc.yaml"), Src::Pipe(repeated_pipeline()))];
    let tree = match DVCTree::assemble(".", sources) {
        Ok(t) => t,
        Err(_) => panic!("relative paths must assemble"),
    };
    let outs = match tree.outputs() {
        Ok(v) => v,
        Err(_) => panic!("expansion over the item variable must succeed"),
    };
    assert_eq!(outs.len(), 2);
    assert_eq!(outs[0].path.as_str(), "models/out-x.txt");
    assert_eq!(outs[1].path.as_str(), "models/out-y.txt");
    assert!(outs[0].cache);
    assert!(outs[0].md5.is_none());
    assert!(outs[0].size.is_none());
}

#[test]
fn descriptor_outputs_compose_the_working_directory() {
    let sources = vec![(s("data/raw.dvc"), Src::Single(single_with_wdir()))];
    let tree = match DVCTree::assemble(".", sources) {
        Ok(t) => t,
        Err(_) => panic!("relative paths must assemble"),
    };
    let outs = match tree.outputs() {
        Ok(v) => v,
        Err(_) => panic!("a descriptor without templates resolves"),
    };
    assert_eq!(outs.len(), 1);
    assert_eq!(outs[0].path.as_str(), "data/processed/result.csv");
}

#[test]
fn sibling_lock_is_associated_with_its_pipeline() {
    let sources = vec![
        (s("p/dvc.yaml"), Src::Pipe(repeated_pipeline())),
        (s("p/dvc.lock"), Src::Lock(lock_content())),
    ];
    let tree = match DVCTree::assemble(".", sources) {
        Ok(t) => t,
        Err(_) => panic!("relative paths must assemble"),
    };
    assert_eq!(tree.pipelines.len(), 1);
    let lock = match &tree.pipelines[0].lock {
        Some(l) => l,
        None => panic!("the sibling lock must be attached"),
    };
    assert_eq!(lock.schema, s("2.0"));
    assert_eq!(lock.stages.len(), 1);
    assert_eq!(lock.stages[0].0, s("train"));
    assert_eq!(lock.stages[0].1.cmd, s("run x"));
    assert_eq!(lock.stages[0].1.outs[0].path.as_str(), "out-x.txt");
}

#[test]
fn missing_lock_leaves_the_association_empty() {
    let sources = vec![(s("p/dvc.yaml"), Src::Pipe(repeated_pipeline()))];
    let tree = match DVCTree::assemble(".", sources) {
        Ok(t) => t,
        Err(_) => panic!("a missing lock must not fail the assembly"),
    };
    assert_eq!(tree.pipelines.len(), 1);
    assert!(tree.pipelines[0].lock.is_none());
}

#[test]
fn unrelated_lock_is_not_associated() {
    let sources = vec![
        (s("p/dvc.yaml"), Src::Pipe(repeated_pipeline())),
        (s("q/dvc.lock"), Src::Lock(lock_content())),
    ];
    let tree = match DVCTree::assemble(".", sources) {
        Ok(t) => t,
        Err(_) => panic!("relative paths must assemble"),
    };
    assert!(tree.pipelines[0].lock.is_none());
}

#[test]
fn expected_lock_path_replaces_the_extension() {
    let p = RelPath::new(s("p/dvc.yaml"));
    match p.expected_lock_path() {
        Some(lp) => assert_eq!(lp.as_str(), "p/dvc.lock"),
        None => panic!("a manifest path carries the extension"),
    }
    assert!(RelPath::new(s("p/dvc.lock")).expected_lock_path().is_none());
}

#[test]
fn absolute_path_fails_the_assembly() {
    let sources = vec![(s("/abs/dvc.yaml"), Src::Pipe(repeated_pipeline()))];
    match DVCTree::assemble(".", sources) {
        Err(DVCError::BadPath) => (),
        _ => panic!("an absolute path cannot be made root-relative"),
    }
}

#[test]
fn undefined_variable_propagates_out_of_outputs() {
    let stage = PipelineStage {
        cmd: s("run ${missing}"),
        wdir: None,
        deps: Vec::new(),
        outs: vec![out("a.txt")],
        metrics: Vec::new(),
    };
    let entry = StageEntry::MultiStage { foreach: vec![s("x")], stage };
    let pipe = Pipeline { stages: vec![(s("train"), entry)] };
    let sources = vec![
        (s("data/raw.dvc"), Src::Single(single_with_wdir())),
        (s("p/dvc.yaml"), Src::Pipe(pipe)),
    ];
    let tree = match DVCTree::assemble(".", sources) {
        Ok(t) => t,
        Err(_) => panic!("relative paths must assemble"),
    };
    match tree.outputs() {
        Err(DVCError::UndefinedVariable(_)) => (),
        _ => panic!("the undefined variable must abort the whole resolution"),
    }
}

#[test]
fn non_ascii_whitespace_propagates_out_of_outputs_as_a_typed_error() {
    let stage = PipelineStage {
        cmd: s("run ${\u{a0}item}"),
        wdir: None,
        deps: Vec::new(),
        outs: vec![out("a.txt")],
        metrics: Vec::new(),
    };
    let entry = StageEntry::MultiStage { foreach: vec![s("x")], stage };
    let pipe = Pipeline { stages: vec![(s("train"), entry)] };
    let sources = vec![(s("p/dvc.yaml"), Src::Pipe(pipe))];
    let tree = match DVCTree::assemble(".", sources) {
        Ok(t) => t,
        Err(_) => panic!("relative paths must assemble"),
    };
    match tree.outputs() {
        Err(DVCError::DecodeFailure(_)) => (),
        _ => panic!("the malformed template must abort the resolution with a typed error"),
    }
}

#[test]
fn stage_wdir_composes_with_the_pipeline_directory() {
    let stage = PipelineStage {
        cmd: s("make"),
        wdir: Some(s("sub")),
        deps: Vec::new(),
        outs: vec![out("bin")],
        metrics: Vec::new(),
    };
    let pipe = Pipeline { stages: vec![(s("build"), StageEntry::SingleStage(stage))] };
    let sources = vec![(s("proj/dvc.yaml"), Src::Pipe(pipe))];
    let tree = match DVCTree::assemble(".", sources) {
        Ok(t) => t,
        Err(_) => panic!("relative paths must assemble"),
    };
    let outs = match tree.outputs() {
        Ok(v) => v,
        Err(_) => panic!("a plain stage resolves"),
    };
    assert_eq!(outs.len(), 1);
    assert_eq!(outs[0].path.as_str(), "proj/sub/bin");
}

#[test]
fn metrics_are_not_resolved_as_outputs() {
    let stage = PipelineStage {
        cmd: s("eval"),
        wdir: None,
        deps: Vec::new(),
        outs: Vec::new(),
        metrics: vec![out("m.json")],
    };
    let pipe = Pipeline { stages: vec![(s("eval"), StageEntry::SingleStage(stage))] };
    let sources = vec![(s("dvc.yaml"), Src::Pipe(pipe))];
    let tree = match DVCTree::assemble(".", sources) {
        Ok(t) => t,
        Err(_) => panic!("relative paths must assemble"),
    };
    match tree.outputs() {
        Ok(v) => assert_eq!(v.len(), 0),
        Err(_) => panic!("a stage without templates resolves"),
    }
}

#[test]
fn empty_tree_has_no_outputs() {
    let tree = match DVCTree::assemble(".", Vec::new()) {
        Ok(t) => t,
        Err(_) => panic!("an empty scan assembles"),
    };
    assert_eq!(tree.dvcfiles.len(), 0);
    assert_eq!(tree.pipelines.len(), 0);
    match tree.outputs() {
        Ok(v) => assert_eq!(v.len(), 0),
        Err(_) => panic!("an empty tree resolves to no outputs"),
    }
}

#[test]
fn descriptor_without_wdir_resolves_beside_itself() {
    let single = SingleStage {
        wdir: None,
        md5: Some(s("abc")),
        outs: vec![OutFile { path: RelPath::new(s("raw.csv")), cache: false, md5: Some(s("d4")), size: Some(7) }],
        deps: Vec::new(),
    };
    let sources = vec![(s("data/raw.dvc"), Src::Single(single))];
    let tree = match DVCTree::assemble(".", sources) {
        Ok(t) => t,
        Err(_) => panic!("relative paths must assemble"),
    };
    let outs = match tree.outputs() {
        Ok(v) => v,
        Err(_) => panic!("a plain descriptor resolves"),
    };
    assert_eq!(outs.len(), 1);
    assert_eq!(outs[0].path.as_str(), "data/raw.csv");
    assert!(!outs[0].cache);
    assert_eq!(outs[0].md5, Some(s("d4")));
    assert!(outs[0].size.is_none());
}
