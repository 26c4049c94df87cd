use mdpreview::platform::{choose_source, display_host, SourceChoice};
use mdpreview::stream::stream_event;
use mdpreview::watcher::{watch_step, ReadOutcome, WatchAction, WatchEvent, WatchTarget};

#[test]
fn file_and_clipboard_together_are_rejected() {
    assert!(choose_source(true, true, false).is_none());
    assert!(choose_source(true, true, true).is_none());
}

#[test]
fn clipboard_flag_wins_when_alone() {
    assert!(matches!(
        choose_source(false, true, true),
        Some(SourceChoice::FromClipboard)
    ));
    assert!(matches!(
        choose_source(false, true, false),
        Some(SourceChoice::FromClipboard)
    ));
}

#[test]
fn file_argument_selects_the_file() {
    assert!(matches!(
        choose_source(true, false, true),
        Some(SourceChoice::FromFile)
    ));
    assert!(matches!(
        choose_source(true, false, false),
        Some(SourceChoice::FromFile)
    ));
}

#[test]
fn stdin_only_in_static_mode() {
    assert!(matches!(
        choose_source(false, false, false),
        Some(SourceChoice::FromStdin)
    ));
    assert!(choose_source(false, false, true).is_none());
}

#[test]
fn wildcard_host_shows_detected_address() {
    let shown = display_host(&"0.0.0.0".to_string(), Some("192.168.1.7".to_string()));
    assert_eq!(shown, "192.168.1.7");
}

#[test]
fn explicit_host_is_shown_as_given() {
    let shown = display_host(&"127.0.0.1".to_string(), Some("192.168.1.7".to_string()));
    assert_eq!(shown, "127.0.0.1");
    let shown = display_host(&"0.0.0.0".to_string(), None);
    assert_eq!(shown, "0.0.0.0");
}

#[test]
fn signal_becomes_exactly_one_reload_event() {
    assert_eq!(stream_event(Some(7)), Some("reload".to_string()));
    assert_eq!(stream_event(None), None);
}

#[test]
fn only_a_readable_modification_publishes() {
    let a = watch_step(WatchEvent::Modified(ReadOutcome::Content("# New".to_string())));
    match a {
        WatchAction::Publish(src) => assert_eq!(src, "# New"),
        WatchAction::Skip => panic!("a readable modification must publish"),
    }
    assert!(matches!(
        watch_step(WatchEvent::Modified(ReadOutcome::Failed)),
        WatchAction::Skip
    ));
    assert!(matches!(watch_step(WatchEvent::Other), WatchAction::Skip));
    assert!(matches!(watch_step(WatchEvent::WatchError), WatchAction::Skip));
}

#[test]
fn ephemeral_sources_are_not_watched() {
    assert!(WatchTarget::File("notes.md".to_string()).is_watched());
    assert!(!WatchTarget::Ephemeral.is_watched());
}
