use rxtd::cli::{
    selector_step, DirEntryName, FilePathCompleter, RetryReason, SelectorAction, SelectorEvent,
};
use rxtd::is_rx1200_extension;

fn entry(name: &str, is_dir: bool) -> DirEntryName {
    DirEntryName { name: name.to_string(), is_dir }
}

#[test]
fn scan_targets() {
    assert_eq!(
        FilePathCompleter::scan_target("/home/us", false, "/home", "us", "/"),
        Some(("/home".to_string(), "us".to_string()))
    );
    assert_eq!(
        FilePathCompleter::scan_target("/home/", true, "/", "home", "/"),
        Some(("/home/".to_string(), "".to_string()))
    );
    assert_eq!(FilePathCompleter::scan_target("/nothere/", false, "/", "nothere", "/"), None);
    assert_eq!(FilePathCompleter::scan_target("", false, "", "", "/"), None);
    assert_eq!(FilePathCompleter::scan_target("us", false, "", "us", "/"), None);
}

#[test]
fn suggestions_match_case_insensitively() {
    let entries = vec![
        entry("Documents", true),
        entry("docs", true),
        entry("doc", true),
        entry("dOcUmEnT.txt", false),
        entry("Music", true),
    ];
    assert_eq!(
        FilePathCompleter::suggestions("/home", "DOC", &entries, "/"),
        vec!["/home/Documents".to_string(), "/home/docs".to_string()]
    );
    assert_eq!(
        FilePathCompleter::suggestions("/", "m", &entries, "/"),
        vec!["/Music".to_string()]
    );
}

#[test]
fn completions_end_directories_with_a_separator() {
    assert_eq!(FilePathCompleter::completion("/home".to_string(), true, "/"), "/home/");
    assert_eq!(FilePathCompleter::completion("/home/".to_string(), true, "/"), "/home/");
    assert_eq!(FilePathCompleter::completion("/home".to_string(), false, "/"), "/home");
}

#[test]
fn preset_extensions() {
    assert!(is_rx1200_extension("rx1200"));
    assert!(is_rx1200_extension("RX1200"));
    assert!(is_rx1200_extension("Rx1200"));
    assert!(!is_rx1200_extension("rx120"));
    assert!(!is_rx1200_extension("taldrum"));
}

#[test]
fn directory_dialog_steps() {
    use_step(true, SelectorEvent::Answered { is_dir: true }, SelectorAction::AcceptExisting);
    use_step(false, SelectorEvent::Answered { is_dir: true }, SelectorAction::AcceptExisting);
    use_step(true, SelectorEvent::Answered { is_dir: false }, SelectorAction::OfferCreation);
    use_step(
        false,
        SelectorEvent::Answered { is_dir: false },
        SelectorAction::AskAgain(RetryReason::NotADirectory),
    );
    use_step(true, SelectorEvent::PromptFailed, SelectorAction::AskAgain(RetryReason::PromptFailed));
    use_step(true, SelectorEvent::Chose { create: true }, SelectorAction::Create);
    use_step(true, SelectorEvent::Chose { create: false }, SelectorAction::AskAgain(RetryReason::ChoseAnother));
    use_step(true, SelectorEvent::ChoiceFailed, SelectorAction::AskAgain(RetryReason::ChoiceFailed));
    use_step(true, SelectorEvent::Created { ok: true }, SelectorAction::AcceptCreated);
    use_step(true, SelectorEvent::Created { ok: false }, SelectorAction::AskAgain(RetryReason::CreationFailed));
}

fn use_step(allow: bool, event: SelectorEvent, expected: SelectorAction) {
    assert_eq!(selector_step(allow, event), expected);
}
