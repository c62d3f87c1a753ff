use libnest::package::{
    Extraction, ExtractionAction, ExtractionEvent, Kind, Manifest, ManifestRead, MemberRead,
    NPFExplorationErrorKind, NPFExplorer, OpenOutcome, Progress,
};

fn manifest(kind: Kind) -> Manifest {
    Manifest::new(
        "gcc".to_string(),
        "sys-devel".to_string(),
        "9.1.0".to_string(),
        kind,
        vec!["stable::sys-libs/glibc".to_string()],
    )
}

fn pending(progress: Progress) -> Extraction {
    match progress {
        Progress::Pending(extraction) => extraction,
        other => panic!("the extraction has ended: {:?}", other),
    }
}

fn opened(kind: Kind) -> NPFExplorer {
    let extraction = NPFExplorer::open_at("/c/gcc.nest", "/tmp/scratch");
    let extraction = pending(extraction.advance(ExtractionEvent::DirectoryCreated(true)));
    let extraction = pending(extraction.advance(ExtractionEvent::Unpacked(true)));
    match extraction.advance(ExtractionEvent::ManifestLoaded(ManifestRead::Parsed(manifest(kind)))) {
        Progress::Opened(explorer) => explorer,
        other => panic!("the explorer did not open: {:?}", other),
    }
}

fn failure_after_manifest(read: ManifestRead) -> (String, ExtractionAction, Progress) {
    let extraction = NPFExplorer::open_at("/c/gcc.nest", "/tmp/scratch");
    let scratch = extraction.scratch().clone();
    let extraction = pending(extraction.advance(ExtractionEvent::DirectoryCreated(true)));
    let extraction = pending(extraction.advance(ExtractionEvent::Unpacked(true)));
    let extraction = pending(extraction.advance(ExtractionEvent::ManifestLoaded(read)));
    let cleanup = extraction.pending();
    (scratch, cleanup, extraction.advance(ExtractionEvent::DirectoryRemoved))
}

fn error_kind(progress: Progress) -> NPFExplorationErrorKind {
    match progress {
        Progress::Failed(error) => error.into_kind(),
        other => panic!("the extraction did not fail: {:?}", other),
    }
}

#[test]
fn manifest_keeps_what_was_declared() {
    let manifest = manifest(Kind::Effective);
    assert_eq!(manifest.name(), "gcc");
    assert_eq!(manifest.category(), "sys-devel");
    assert_eq!(manifest.version(), "9.1.0");
    assert_eq!(manifest.kind(), Kind::Effective);
    assert_eq!(manifest.dependencies(), &vec!["stable::sys-libs/glibc".to_string()]);
}

#[test]
fn scratch_name_has_prefix_and_ten_letters_or_digits() {
    let path = NPFExplorer::gen_tmp_filename("/var/run/nest");
    let name = path.strip_prefix("/var/run/nest/nest_").expect("the fixed prefix");
    assert_eq!(name.chars().count(), 10);
    assert!(name.chars().all(|c| c.is_ascii_alphanumeric()));
}

#[test]
fn scratch_names_are_drawn_anew() {
    let mut names = Vec::new();
    for _ in 0..20 {
        names.push(NPFExplorer::gen_tmp_filename("/base"));
    }
    names.sort();
    names.dedup();
    assert_eq!(names.len(), 20);
}

#[test]
fn from_unpacks_under_the_runtime_directory() {
    let extraction = NPFExplorer::from("/c/gcc.nest");
    assert_eq!(extraction.archive(), "/c/gcc.nest");
    let name = extraction.scratch().strip_prefix("/var/run/nest/nest_").expect("the fixed prefix");
    assert_eq!(name.len(), 10);
}

#[test]
fn extraction_asks_for_each_step_in_turn() {
    let extraction = NPFExplorer::open_at("/c/gcc.nest", "/tmp/scratch");
    let scratch = extraction.scratch().clone();
    assert_eq!(extraction.pending(), ExtractionAction::CreateDirectory(scratch.clone()));
    let extraction = pending(extraction.advance(ExtractionEvent::DirectoryCreated(true)));
    assert_eq!(
        extraction.pending(),
        ExtractionAction::Unpack { archive: "/c/gcc.nest".to_string(), into: scratch.clone() }
    );
    let extraction = pending(extraction.advance(ExtractionEvent::Unpacked(true)));
    assert_eq!(
        extraction.pending(),
        ExtractionAction::LoadManifest(format!("{}/manifest.toml", scratch))
    );
    let read = ManifestRead::Parsed(manifest(Kind::Virtual));
    match extraction.advance(ExtractionEvent::ManifestLoaded(read)) {
        Progress::Opened(explorer) => {
            assert_eq!(explorer.path(), &scratch);
            assert_eq!(explorer.manifest(), &manifest(Kind::Virtual));
            assert_eq!(explorer.close(), ExtractionAction::RemoveDirectory(scratch));
        }
        other => panic!("the explorer did not open: {:?}", other),
    }
}

#[test]
fn an_event_that_answers_nothing_changes_nothing() {
    let extraction = NPFExplorer::open_at("/c/gcc.nest", "/tmp/scratch");
    let before = extraction.pending();
    let extraction = pending(extraction.advance(ExtractionEvent::Unpacked(true)));
    assert_eq!(extraction.pending(), before);
    let extraction = pending(extraction.advance(ExtractionEvent::DirectoryRemoved));
    assert_eq!(extraction.pending(), before);
}

#[test]
fn failing_to_make_the_directory_is_an_unpack_error() {
    let extraction = NPFExplorer::open_at("/c/gcc.nest", "/tmp/scratch");
    let kind = error_kind(extraction.advance(ExtractionEvent::DirectoryCreated(false)));
    assert_eq!(kind, NPFExplorationErrorKind::UnpackError);
}

#[test]
fn failing_to_unpack_removes_the_scratch_directory() {
    let extraction = NPFExplorer::open_at("/c/gcc.nest", "/tmp/scratch");
    let scratch = extraction.scratch().clone();
    let extraction = pending(extraction.advance(ExtractionEvent::DirectoryCreated(true)));
    let extraction = pending(extraction.advance(ExtractionEvent::Unpacked(false)));
    assert_eq!(extraction.pending(), ExtractionAction::RemoveDirectory(scratch));
    let kind = error_kind(extraction.advance(ExtractionEvent::DirectoryRemoved));
    assert_eq!(kind, NPFExplorationErrorKind::UnpackError);
}

#[test]
fn missing_manifest_fails_and_cleans_up() {
    let (scratch, cleanup, progress) = failure_after_manifest(ManifestRead::Missing);
    assert_eq!(cleanup, ExtractionAction::RemoveDirectory(scratch));
    assert_eq!(error_kind(progress), NPFExplorationErrorKind::MissingManifest);
}

#[test]
fn invalid_manifest_fails_and_cleans_up() {
    let (scratch, cleanup, progress) = failure_after_manifest(ManifestRead::Unparsable);
    assert_eq!(cleanup, ExtractionAction::RemoveDirectory(scratch));
    assert_eq!(error_kind(progress), NPFExplorationErrorKind::InvalidManifest);
}

#[test]
fn unreadable_manifest_fails_and_cleans_up() {
    let (scratch, cleanup, progress) = failure_after_manifest(ManifestRead::Unreadable);
    assert_eq!(cleanup, ExtractionAction::RemoveDirectory(scratch.clone()));
    assert_eq!(error_kind(progress), NPFExplorationErrorKind::FileIOError(scratch));
}

#[test]
fn effective_package_with_payload_opens_it() {
    let explorer = opened(Kind::Effective);
    let found = explorer.open_data(OpenOutcome::Opened).expect("the payload is there");
    let file = found.expect("the payload is present");
    assert_eq!(file.path(), &format!("{}/data.tar.gz", explorer.path()));
}

#[test]
fn effective_package_without_payload_is_an_error() {
    let explorer = opened(Kind::Effective);
    let error = explorer.open_data(OpenOutcome::NotFound).expect_err("a payload is required");
    assert_eq!(
        error.kind(),
        &NPFExplorationErrorKind::FileNotFound("data.tar.gz".to_string())
    );
}

#[test]
fn virtual_package_without_payload_is_absent() {
    let explorer = opened(Kind::Virtual);
    let found = explorer.open_data(OpenOutcome::NotFound).expect("absence is no error");
    assert!(found.is_none());
}

#[test]
fn virtual_package_may_carry_a_payload() {
    let explorer = opened(Kind::Virtual);
    let found = explorer.open_data(OpenOutcome::Opened).expect("the payload is there");
    assert!(found.is_some());
}

#[test]
fn payload_that_cannot_be_opened_is_an_io_error() {
    for kind in [Kind::Effective, Kind::Virtual] {
        let explorer = opened(kind);
        let error = explorer.open_data(OpenOutcome::Failed).expect_err("the open failed");
        assert_eq!(
            error.kind(),
            &NPFExplorationErrorKind::FileIOError("data.tar.gz".to_string())
        );
    }
}

#[test]
fn instructions_are_optional_for_every_kind() {
    for kind in [Kind::Effective, Kind::Virtual] {
        let explorer = opened(kind);
        assert!(explorer.open_instructions(OpenOutcome::NotFound).expect("no error").is_none());
        let found = explorer.open_instructions(OpenOutcome::Opened).expect("no error");
        let file = found.expect("the instructions are present");
        assert_eq!(file.path(), &format!("{}/instructions.sh", explorer.path()));
        let error = explorer.open_instructions(OpenOutcome::Failed).expect_err("the open failed");
        assert_eq!(
            error.kind(),
            &NPFExplorationErrorKind::FileIOError("instructions.sh".to_string())
        );
    }
}

#[test]
fn manifest_file_is_a_required_member() {
    let explorer = opened(Kind::Virtual);
    let file = explorer.open_manifest(OpenOutcome::Opened).expect("the manifest is there");
    assert_eq!(file.path(), &format!("{}/manifest.toml", explorer.path()));
    let error = explorer.open_manifest(OpenOutcome::NotFound).expect_err("it is required");
    assert_eq!(
        error.kind(),
        &NPFExplorationErrorKind::FileNotFound("manifest.toml".to_string())
    );
}

#[test]
fn open_file_names_the_member_in_its_errors() {
    let explorer = opened(Kind::Virtual);
    assert_eq!(explorer.member_path("extra"), format!("{}/extra", explorer.path()));
    let error = explorer.open_file("extra", OpenOutcome::NotFound).expect_err("not found");
    assert_eq!(error.kind(), &NPFExplorationErrorKind::FileNotFound("extra".to_string()));
    let error = explorer.open_file("extra", OpenOutcome::Failed).expect_err("failed");
    assert_eq!(error.kind(), &NPFExplorationErrorKind::FileIOError("extra".to_string()));
}

#[test]
fn load_instructions_keeps_the_exact_bytes() {
    let explorer = opened(Kind::Effective);
    let script = "#!/bin/sh\necho caf\u{e9}\n";
    let loaded = explorer
        .load_instructions(MemberRead::Content(script.as_bytes().to_vec()))
        .expect("the script is text");
    let executor = loaded.expect("the instructions are present");
    assert_eq!(executor.script(), script);
    assert_eq!(executor.script().as_bytes(), script.as_bytes());
    assert_eq!(executor.duplicate(), executor);
}

#[test]
fn load_instructions_without_the_member_is_absent() {
    let explorer = opened(Kind::Effective);
    assert_eq!(explorer.load_instructions(MemberRead::NotFound), Ok(None));
}

#[test]
fn load_instructions_fails_on_what_cannot_be_loaded() {
    let explorer = opened(Kind::Effective);
    let expected = NPFExplorationErrorKind::FileIOError("instructions.sh".to_string());
    let error = explorer.load_instructions(MemberRead::Failed).expect_err("unreadable");
    assert_eq!(error.kind(), &expected);
    let error = explorer
        .load_instructions(MemberRead::Content(vec![0x66, 0x6f, 0xff, 0x6f]))
        .expect_err("no text");
    assert_eq!(error.kind(), &expected);
}
