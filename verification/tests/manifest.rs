use rev::locator::{DirEntry, DirListing, EntryKind};
use rev::manifest::{
    accept_answer, compose_addin_info, create_addin_file, get_addin_file_info, handle_addin_file,
    is_addin_file_a_template_or_missing, manifest_questions, needs_regeneration,
    next_manifest_step, AddinFileInfo, GetAddinFileInfoError, ManifestContents, ManifestProgress,
    ManifestRead, ManifestStep, Question,
};
use rev::project::ProjectInfo;
use rev::state::State;

fn info() -> AddinFileInfo {
    AddinFileInfo {
        name: "Tool".to_string(),
        assembly: "Tool\\Tool.dll".to_string(),
        addin_id: "67e55044-10b1-426f-9247-bb680e5fe0c8".to_string(),
        full_class_name: "Tool.App".to_string(),
        vendor_id: "Development".to_string(),
        vendor_description: "Does things".to_string(),
        vendor_email: "me@firm.com".to_string(),
    }
}

fn project() -> DirListing {
    DirListing {
        path: "work".to_string(),
        entries: vec![DirEntry {
            name: "Tool.csproj".to_string(),
            path: "work/Tool.csproj".to_string(),
            kind: EntryKind::File,
        }],
    }
}

fn state(email: &str) -> State {
    State { revit_version: "2024".to_string(), email_address: email.to_string() }
}

fn answers() -> Vec<String> {
    vec!["My Tool".to_string(), "ACME".to_string(), "Does things".to_string(), "me@firm.com".to_string()]
}

#[test]
fn manifest_text_has_the_fixed_layout() {
    let expected = "<?xml version=\"1.0\" encoding=\"utf-8\"?>\n\
<RevitAddIns>\n\
\t<AddIn Type=\"Application\">\n\
\t\t<Name>Tool</Name>\n\
\t\t<Assembly>Tool\\Tool.dll</Assembly>\n\
\t\t<AddInId>67e55044-10b1-426f-9247-bb680e5fe0c8</AddInId>\n\
\t\t<FullClassName>Tool.App</FullClassName>\n\
\t\t<VendorId>Development</VendorId>\n\
\t\t<VendorDescription>Does things</VendorDescription>\n\
\t\t<VendorEmail>me@firm.com</VendorEmail>\n\
\t</AddIn>\n\
</RevitAddIns>\n";
    assert_eq!(create_addin_file(&info()), expected);
}

#[test]
fn missing_manifest_is_written_anew() {
    assert!(is_addin_file_a_template_or_missing(None));
}

#[test]
fn each_template_mark_alone_is_enough() {
    assert!(is_addin_file_a_template_or_missing(Some("<Name>Template Plugin</Name>")));
    assert!(is_addin_file_a_template_or_missing(Some("<VendorEmail>youremail@example.com</VendorEmail>")));
    assert!(is_addin_file_a_template_or_missing(Some("<VendorDescription>Insert description here</VendorDescription>")));
}

#[test]
fn placeholder_email_forces_regeneration_of_an_otherwise_proper_file() {
    let mut i = info();
    i.vendor_email = "youremail@example.com".to_string();
    let text = create_addin_file(&i);
    assert!(is_addin_file_a_template_or_missing(Some(&text)));
}

#[test]
fn file_without_marks_is_kept_even_if_malformed() {
    assert!(!is_addin_file_a_template_or_missing(Some(&create_addin_file(&info()))));
    assert!(!is_addin_file_a_template_or_missing(Some("not xml at all")));
    assert!(!is_addin_file_a_template_or_missing(Some("")));
    assert!(!is_addin_file_a_template_or_missing(Some("template plugin YOUREMAIL@EXAMPLE.COM")));
}

#[test]
fn reading_a_manifest_maps_each_failure() {
    assert!(matches!(
        get_addin_file_info(ManifestRead::Missing),
        Err(GetAddinFileInfoError::FileNotFound)
    ));
    assert!(matches!(
        get_addin_file_info(ManifestRead::Unopened("denied".to_string())),
        Err(GetAddinFileInfoError::FailedToOpenFile(e)) if e == "denied"
    ));
    assert!(matches!(
        get_addin_file_info(ManifestRead::Unread("bad utf-8".to_string())),
        Err(GetAddinFileInfoError::FailedToReadFile(e)) if e == "bad utf-8"
    ));
    assert!(matches!(
        get_addin_file_info(ManifestRead::Malformed("unexpected eof".to_string())),
        Err(GetAddinFileInfoError::FailedToParseXml(e)) if e == "unexpected eof"
    ));
    let got = get_addin_file_info(ManifestRead::Parsed(info())).unwrap();
    assert_eq!(got.name, "Tool");
    assert_eq!(got.vendor_email, "me@firm.com");
}

#[test]
fn questions_come_in_order_with_their_defaults() {
    let q = manifest_questions(&state(""));
    assert_eq!(q.len(), 4);
    assert_eq!(q[0].prompt, "Enter the name of your addin");
    assert_eq!(q[0].default, None);
    assert_eq!(q[1].prompt, "Enter your vendor ID");
    assert_eq!(q[1].default, Some("Development".to_string()));
    assert_eq!(q[2].prompt, "Enter a description of your add-in");
    assert_eq!(q[2].default, None);
    assert_eq!(q[3].prompt, "Enter your work email address");
    assert_eq!(q[3].default, None);
}

#[test]
fn remembered_email_is_the_default() {
    let q = manifest_questions(&state("me@firm.com"));
    assert_eq!(q[3].default, Some("me@firm.com".to_string()));
}

#[test]
fn answers_are_accepted_or_asked_again() {
    let plain = Question { prompt: "p".to_string(), default: None };
    let with_default = Question { prompt: "p".to_string(), default: Some("d".to_string()) };
    assert_eq!(accept_answer(&plain, "typed"), Some("typed".to_string()));
    assert_eq!(accept_answer(&plain, ""), None);
    assert_eq!(accept_answer(&with_default, "typed"), Some("typed".to_string()));
    assert_eq!(accept_answer(&with_default, ""), Some("d".to_string()));
}

#[test]
fn manifest_is_composed_from_project_name_and_answers() {
    let i = compose_addin_info("Tool", &answers(), "some-id".to_string()).unwrap();
    assert_eq!(i.name, "My Tool");
    assert_eq!(i.assembly, "Tool\\Tool.dll");
    assert_eq!(i.addin_id, "some-id");
    assert_eq!(i.full_class_name, "Tool.App");
    assert_eq!(i.vendor_id, "ACME");
    assert_eq!(i.vendor_description, "Does things");
    assert_eq!(i.vendor_email, "me@firm.com");
}

#[test]
fn too_few_answers_compose_nothing() {
    assert!(compose_addin_info("Tool", &vec!["only".to_string()], "id".to_string()).is_none());
}

fn read_as(contents: Option<&str>) -> ManifestContents {
    match contents {
        Some(text) => ManifestContents::Text(text.to_string()),
        None => ManifestContents::Missing,
    }
}

fn with_prefs(mut progress: ManifestProgress, preferences: State) -> ManifestProgress {
    progress.preferences = Some(preferences);
    progress
}

fn progress(contents: Option<Option<&str>>, answered: bool, written: Option<Result<(), String>>) -> ManifestProgress {
    ManifestProgress {
        contents: contents.map(read_as),
        preferences: None,
        answers: if answered { Some(answers()) } else { None },
        written,
    }
}

#[test]
fn certifier_fails_without_project_file() {
    let none = DirListing { path: "work".to_string(), entries: vec![] };
    match handle_addin_file(&none, &with_prefs(ManifestProgress::new(), state(""))) {
        ManifestStep::Done(Err(e)) => assert_eq!(e, "No csproj file found"),
        other => panic!("{:?}", other),
    }
}

#[test]
fn certifier_reads_the_manifest_beside_the_project_file() {
    match handle_addin_file(&project(), &with_prefs(ManifestProgress::new(), state(""))) {
        ManifestStep::Read { file } => {
            assert_eq!(file.dir, "work");
            assert_eq!(file.file_name, "Tool.addin");
        }
        other => panic!("{:?}", other),
    }
}

#[test]
fn certifier_never_touches_a_file_without_marks() {
    let text = create_addin_file(&info());
    for answered in [false, true] {
        match handle_addin_file(&project(), &with_prefs(progress(Some(Some(&text)), answered, None), state(""))) {
            ManifestStep::Done(Ok(file)) => assert_eq!(file.file_name, "Tool.addin"),
            other => panic!("{:?}", other),
        }
    }
}

#[test]
fn certifier_asks_when_the_file_is_missing_or_a_template() {
    for contents in [None, Some("x youremail@example.com y")] {
        match handle_addin_file(&project(), &with_prefs(progress(Some(contents), false, None), state("old@firm.com"))) {
            ManifestStep::Ask { questions } => {
                assert_eq!(questions.len(), 4);
                assert_eq!(questions[3].default, Some("old@firm.com".to_string()));
            }
            other => panic!("{:?}", other),
        }
    }
}

fn written_step() -> (String, State) {
    match handle_addin_file(&project(), &with_prefs(progress(Some(None), true, None), state("old@firm.com"))) {
        ManifestStep::Write { file, text, state } => {
            assert_eq!(file.dir, "work");
            assert_eq!(file.file_name, "Tool.addin");
            (text, state)
        }
        other => panic!("{:?}", other),
    }
}

fn addin_id_in(text: &str) -> String {
    let from = text.find("<AddInId>").unwrap() + "<AddInId>".len();
    let to = text.find("</AddInId>").unwrap();
    text[from..to].to_string()
}

#[test]
fn certifier_writes_the_composed_manifest_and_remembers_the_email() {
    let (text, kept) = written_step();
    let id = addin_id_in(&text);
    assert_eq!(id.len(), 36);
    let expected = compose_addin_info("Tool", &answers(), id).unwrap();
    assert_eq!(text, create_addin_file(&expected));
    assert_eq!(kept.email_address, "me@firm.com");
    assert_eq!(kept.revit_version, "2024");
}

#[test]
fn every_regeneration_gets_a_fresh_identifier() {
    let first = addin_id_in(&written_step().0);
    let second = addin_id_in(&written_step().0);
    assert_ne!(first, second);
    for id in [first, second] {
        let bytes = id.as_bytes();
        assert_eq!(bytes[8], b'-');
        assert_eq!(bytes[13], b'-');
        assert_eq!(bytes[14], b'4');
        assert_eq!(bytes[18], b'-');
        assert_eq!(bytes[23], b'-');
    }
}

#[test]
fn certifier_ends_with_the_outcome_of_writing() {
    match handle_addin_file(&project(), &with_prefs(progress(Some(None), true, Some(Ok(()))), state(""))) {
        ManifestStep::Done(Ok(file)) => assert_eq!(file.file_name, "Tool.addin"),
        other => panic!("{:?}", other),
    }
    match handle_addin_file(
        &project(),
        &with_prefs(progress(Some(None), true, Some(Err("disk full".to_string()))), state("")),
    ) {
        ManifestStep::Done(Err(e)) => assert_eq!(e, "disk full"),
        other => panic!("{:?}", other),
    }
}

#[test]
fn clone_of_a_manifest_keeps_every_field() {
    let c = info().clone();
    assert_eq!(create_addin_file(&c), create_addin_file(&info()));
}

fn described() -> ProjectInfo {
    ProjectInfo {
        full_project_name: "Kit.csproj".to_string(),
        project_name: "Kit".to_string(),
        csproj_dir: "repo/kit".to_string(),
    }
}

#[test]
fn steps_for_a_described_project() {
    match next_manifest_step(&described(), &with_prefs(ManifestProgress::new(), state(""))) {
        ManifestStep::Read { file } => {
            assert_eq!(file.dir, "repo/kit");
            assert_eq!(file.file_name, "Kit.addin");
        }
        other => panic!("{:?}", other),
    }
    match next_manifest_step(&described(), &with_prefs(progress(Some(Some("fine")), true, None), state(""))) {
        ManifestStep::Done(Ok(file)) => assert_eq!(file.file_name, "Kit.addin"),
        other => panic!("{:?}", other),
    }
    match next_manifest_step(
        &described(),
        &with_prefs(progress(Some(Some("Insert description here")), true, None), state("")),
    ) {
        ManifestStep::Write { text, .. } => {
            assert!(text.contains("<Assembly>Kit\\Kit.dll</Assembly>"));
            assert!(text.contains("<FullClassName>Kit.App</FullClassName>"));
            assert!(text.contains("<Name>My Tool</Name>"));
        }
        other => panic!("{:?}", other),
    }
}

#[test]
fn answers_of_the_wrong_number_are_asked_for_again() {
    let p = ManifestProgress {
        contents: Some(ManifestContents::Missing),
        preferences: Some(state("")),
        answers: Some(vec!["only one".to_string()]),
        written: None,
    };
    assert!(matches!(next_manifest_step(&described(), &p), ManifestStep::Ask { .. }));
}

#[test]
fn preferences_are_loaded_only_for_a_manifest_that_is_written_anew() {
    assert!(matches!(
        next_manifest_step(&described(), &progress(Some(Some("fine")), false, None)),
        ManifestStep::Done(Ok(_))
    ));
    assert!(matches!(
        next_manifest_step(&described(), &progress(Some(None), false, None)),
        ManifestStep::LoadPreferences
    ));
    assert!(matches!(
        next_manifest_step(&described(), &progress(Some(Some("Template Plugin")), true, None)),
        ManifestStep::LoadPreferences
    ));
}

#[test]
fn manifest_that_cannot_be_read_is_a_failure_and_is_not_written_over() {
    let mut p = progress(None, true, None);
    p.contents = Some(ManifestContents::Unreadable("stream did not contain valid UTF-8".to_string()));
    p.preferences = Some(state(""));
    match next_manifest_step(&described(), &p) {
        ManifestStep::Done(Err(e)) => assert_eq!(e, "stream did not contain valid UTF-8"),
        other => panic!("{:?}", other),
    }
}

#[test]
fn what_was_read_decides_on_regeneration() {
    assert!(needs_regeneration(&ManifestContents::Missing));
    assert!(needs_regeneration(&ManifestContents::Text("Template Plugin".to_string())));
    assert!(!needs_regeneration(&ManifestContents::Text("mine".to_string())));
    assert!(!needs_regeneration(&ManifestContents::Unreadable("x".to_string())));
}
