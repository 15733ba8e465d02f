//! Tests for artifact decoding: the two-shape rule and the record schemas.
use dvctree::paths::RelPath;
use dvctree::schemas::dep::DepFile;
use dvctree::schemas::out::OutFile;
use dvctree::schemas::pipeline::filelist::{decode_dep_entry, decode_out_entry, decode_out_list,
    FLEntry};
use dvctree::schemas::pipeline::StageEntry;
use dvctree::schemas::Artifact;
use dvctree::walk::{classify, parse_source, FileKind, Src};
use dvctree::yaml::Yaml;
use dvctree::DVCError;

fn s(text: &str) -> String {
    String::from(text)
}

#[test]
fn bare_entries_decode_with_defaults() {
    let items = vec![Yaml::Str(s("a.txt")), Yaml::Str(s("dir/b.bin")), Yaml::Str(s("c"))];
    let outs = match decode_out_list(&items) {
        Ok(v) => v,
        Err(_) => panic!("bare entries must decode"),
    };
    assert_eq!(outs.len(), 3);
    let expected = ["a.txt", "dir/b.bin", "c"];
    for (out, want) in outs.iter().zip(expected.iter()) {
        assert_eq!(out.path.as_str(), *want);
        assert!(out.cache);
        assert!(out.md5.is_none());
        assert!(out.size.is_none());
    }
}

#[test]
fn detailed_entry_decodes_attributes() {
    let attrs = vec![
        (Yaml::Str(s("md5")), Yaml::Str(s("abc"))),
        (Yaml::Str(s("cache")), Yaml::Bool(false)),
    ];
    let entry = Yaml::Dict(vec![(Yaml::Str(s("a/b.txt")), Yaml::Dict(attrs))]);
    let out = match decode_out_entry(&entry) {
        Ok(o) => o,
        Err(_) => panic!("a one-key mapping must decode"),
    };
    assert_eq!(out.path.as_str(), "a/b.txt");
    assert_eq!(out.md5, Some(s("abc")));
    assert!(!out.cache);
    assert!(out.size.is_none());
}

#[test]
fn two_key_mapping_is_invalid() {
    let entry = Yaml::Dict(vec![
        (Yaml::Str(s("a.txt")), Yaml::Dict(vec![])),
        (Yaml::Str(s("b.txt")), Yaml::Dict(vec![])),
    ]);
    match decode_out_entry(&entry) {
        Err(DVCError::InvalidArtifactEntry) => (),
        _ => panic!("a two-key mapping must be rejected as an invalid artifact entry"),
    }
}

#[test]
fn empty_mapping_is_invalid() {
    let entry = Yaml::Dict(vec![]);
    match decode_dep_entry(&entry) {
        Err(DVCError::InvalidArtifactEntry) => (),
        _ => panic!("an empty mapping must be rejected as an invalid artifact entry"),
    }
}

#[test]
fn non_string_entry_is_a_decode_failure() {
    match decode_out_entry(&Yaml::Int(3)) {
        Err(DVCError::DecodeFailure(_)) => (),
        _ => panic!("an integer entry must be a decode failure"),
    }
}

#[test]
fn dep_entry_keeps_size_and_md5() {
    let attrs = vec![
        (Yaml::Str(s("md5")), Yaml::Str(s("0123"))),
        (Yaml::Str(s("size")), Yaml::Int(42)),
    ];
    let entry = Yaml::Dict(vec![(Yaml::Str(s("data.csv")), Yaml::Dict(attrs))]);
    let dep = match decode_dep_entry(&entry) {
        Ok(d) => d,
        Err(_) => panic!("a detailed dependency must decode"),
    };
    assert_eq!(dep.path.as_str(), "data.csv");
    assert_eq!(dep.md5, Some(s("0123")));
    assert_eq!(dep.size, Some(42));
    assert!(dep.wdir.is_none());
}

#[test]
fn classify_recognizes_the_three_kinds() {
    assert!(matches!(classify("dvc.yaml"), Some(FileKind::Pipeline)));
    assert!(matches!(classify("dvc.lock"), Some(FileKind::Lock)));
    assert!(matches!(classify("raw.dvc"), Some(FileKind::Single)));
    assert!(matches!(classify("foo.bar.dvc"), Some(FileKind::Single)));
    assert!(matches!(classify("readme.md"), None));
    assert!(matches!(classify("xdvc.yaml"), None));
    assert!(matches!(classify("dvc.yaml.bak"), None));
}

#[test]
fn parse_single_artifact_file() {
    let text = "wdir: processed\nmd5: abc\nouts:\n- result.csv\ndeps:\n- src/data.py\n";
    let src = match parse_source(FileKind::Single, text) {
        Ok(v) => v,
        Err(_) => panic!("a well-formed descriptor must parse"),
    };
    let stage = match src {
        Src::Single(stage) => stage,
        _ => panic!("a descriptor parses to a single stage"),
    };
    assert_eq!(stage.wdir.as_ref().map(|p| p.as_str()), Some("processed"));
    assert_eq!(stage.md5, Some(s("abc")));
    assert_eq!(stage.outs.len(), 1);
    assert_eq!(stage.outs[0].path.as_str(), "result.csv");
    assert_eq!(stage.deps.len(), 1);
    assert_eq!(stage.deps[0].path.as_str(), "src/data.py");
}

#[test]
fn parse_detailed_artifact_through_yaml() {
    let text = "outs:\n- a/b.txt:\n    md5: abc\n    cache: false\n";
    let stage = match parse_source(FileKind::Single, text) {
        Ok(Src::Single(stage)) => stage,
        _ => panic!("the detailed form must parse"),
    };
    assert_eq!(stage.outs.len(), 1);
    assert_eq!(stage.outs[0].path.as_str(), "a/b.txt");
    assert_eq!(stage.outs[0].md5, Some(s("abc")));
    assert!(!stage.outs[0].cache);
}

#[test]
fn parse_rejects_two_key_artifact_mapping() {
    let text = "outs:\n- a.txt:\n    md5: x\n  b.txt:\n    md5: y\n";
    match parse_source(FileKind::Single, text) {
        Err(DVCError::InvalidArtifactEntry) => (),
        _ => panic!("a two-key artifact mapping must fail"),
    }
}

#[test]
fn parse_rejects_malformed_yaml() {
    match parse_source(FileKind::Single, "outs: [unclosed\n") {
        Err(DVCError::DecodeFailure(_)) => (),
        _ => panic!("malformed text must be a decode failure"),
    }
}

#[test]
fn parse_rejects_wrong_shapes() {
    match parse_source(FileKind::Pipeline, "stages: 5\n") {
        Err(DVCError::DecodeFailure(_)) => (),
        _ => panic!("a non-mapping stages value must fail"),
    }
    match parse_source(FileKind::Single, "- 1\n- 2\n") {
        Err(DVCError::DecodeFailure(_)) => (),
        _ => panic!("a list document is no descriptor"),
    }
    match parse_source(FileKind::Single, "outs:\n- a.txt:\n    size: 1.5\n") {
        Err(DVCError::DecodeFailure(_)) => (),
        _ => panic!("a fractional size must fail"),
    }
}

#[test]
fn parse_lock_state() {
    let text = "schema: '2.0'\nstages:\n  train:\n    cmd: run x\n    outs:\n    - out-x.txt\n";
    let lock = match parse_source(FileKind::Lock, text) {
        Ok(Src::Lock(l)) => l,
        _ => panic!("a well-formed lock file must parse"),
    };
    assert_eq!(lock.schema, s("2.0"));
    assert_eq!(lock.stages.len(), 1);
    assert_eq!(lock.stages[0].0, s("train"));
    assert_eq!(lock.stages[0].1.cmd, s("run x"));
    assert_eq!(lock.stages[0].1.outs.len(), 1);
    assert_eq!(lock.stages[0].1.outs[0].path.as_str(), "out-x.txt");
}

#[test]
fn artifact_accessors_read_and_write_the_path() {
    let mut out = OutFile::default();
    assert_eq!(out.path().as_str(), "");
    assert!(out.cache);
    out.set_path(&RelPath::new(s("x.bin")));
    assert_eq!(out.path().as_str(), "x.bin");
    assert!(out.md5().is_none());
    let mut dep = DepFile::default();
    dep.set_path(&RelPath::new(s("d.csv")));
    assert_eq!(dep.path().as_str(), "d.csv");
    assert!(dep.md5().is_none());
}

#[test]
fn file_list_entries_turn_into_artifacts() {
    let bare: FLEntry<OutFile> = FLEntry::Bare(RelPath::new(s("a.txt")));
    let a = bare.to_artifact();
    assert_eq!(a.path.as_str(), "a.txt");
    assert!(a.cache);
    assert!(a.md5.is_none());
    let mapped: FLEntry<OutFile> = FLEntry::Mapped(
        OutFile { path: RelPath::new(s("b")), cache: false, md5: Some(s("99")), size: None },
    );
    let b = mapped.to_artifact();
    assert_eq!(b.path.as_str(), "b");
    assert!(!b.cache);
    assert_eq!(b.md5, Some(s("99")));
}

#[test]
fn parse_plain_stage_with_metrics() {
    let text = "stages:\n  t:\n    cmd: make\n    metrics:\n    - m.json\n";
    let p = match parse_source(FileKind::Pipeline, text) {
        Ok(Src::Pipe(p)) => p,
        _ => panic!("a plain stage with metrics must parse"),
    };
    assert_eq!(p.stages.len(), 1);
    assert_eq!(p.stages[0].0, s("t"));
    let stage = match &p.stages[0].1 {
        StageEntry::SingleStage(stage) => stage,
        _ => panic!("a mapping without foreach is a plain stage"),
    };
    assert_eq!(stage.cmd, s("make"));
    assert_eq!(stage.metrics.len(), 1);
    assert_eq!(stage.metrics[0].path.as_str(), "m.json");
    assert_eq!(stage.outs.len(), 0);
}

#[test]
fn lock_needs_schema_and_stages() {
    match parse_source(FileKind::Lock, "stages: {}\n") {
        Err(DVCError::DecodeFailure(_)) => (),
        _ => panic!("a lock file without a schema must fail"),
    }
    match parse_source(FileKind::Lock, "schema: '2.0'\n") {
        Err(DVCError::DecodeFailure(_)) => (),
        _ => panic!("a lock file without stages must fail"),
    }
}
