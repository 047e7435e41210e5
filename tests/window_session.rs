use window_session::catalog::{QueryParam, WindowCatalog, WindowDescriptor, WindowPosition};
use window_session::commands::{
    canonical_window_id, close_status, greet, install_standard_shortcuts, open_status,
    registration_status, shortcut_status, standard_chord, CURRENT_TASK_KEY, DAILY_NOTE_KEY,
    FLEX_KEY,
};
use window_session::manager::WindowManager;
use window_session::registry::{focus_outcome, OpenStep, WindowError, WindowRegistry};
use window_session::shortcuts::{Chord, ShortcutError, ShortcutTable};

fn descriptor(id: &str, title: &str, w: u32, h: u32, x: i32, y: i32) -> WindowDescriptor {
    WindowDescriptor {
        id: id.to_string(),
        title: title.to_string(),
        width: w,
        height: h,
        position: Some(WindowPosition { x, y }),
        route: "index.html".to_string(),
        params: Vec::new(),
    }
}

fn daily_catalog() -> WindowCatalog {
    WindowCatalog::new(vec![descriptor("daily-note", "Daily Note", 500, 600, 100, 100)])
}

fn chord_d() -> Chord {
    Chord::new(true, true, true, b'D').unwrap()
}

#[test]
fn daily_note_created_from_catalog_then_focused() {
    let mut m = WindowManager::new(daily_catalog());
    match m.open_or_focus("daily-note") {
        OpenStep::Create { descriptor, url } => {
            assert_eq!(descriptor.id, "daily-note");
            assert_eq!(descriptor.title, "Daily Note");
            assert_eq!(descriptor.width, 500);
            assert_eq!(descriptor.height, 600);
            assert_eq!(descriptor.position, Some(WindowPosition { x: 100, y: 100 }));
            assert_eq!(url, "index.html");
        }
        other => panic!("expected a creation, got {:?}", other),
    }
    assert_eq!(m.finish_create("daily-note", Some(7)), Ok(7));
    match m.open_or_focus("daily-note") {
        OpenStep::Focus { handle } => assert_eq!(handle, 7),
        other => panic!("expected a focus, got {:?}", other),
    }
    assert_eq!(m.list(), vec!["daily-note".to_string()]);
}

#[test]
fn unknown_id_uses_fallback_descriptor() {
    let m = WindowManager::new(daily_catalog());
    match m.open_or_focus("unknown-id") {
        OpenStep::Create { descriptor, url } => {
            assert_eq!(descriptor.title, "Window (unknown-id)");
            assert_eq!(descriptor.width, 500);
            assert_eq!(descriptor.height, 500);
            assert_eq!(descriptor.position, Some(WindowPosition { x: 250, y: 250 }));
            assert_eq!(url, "index.html");
        }
        other => panic!("expected a creation, got {:?}", other),
    }
}

#[test]
fn chord_trigger_creates_focuses_then_drops_after_unbind() {
    let mut m = WindowManager::new(daily_catalog());
    assert_eq!(m.register_shortcut(chord_d(), "daily-note"), Ok(()));
    match m.on_trigger(chord_d()) {
        Some((target, OpenStep::Create { descriptor, .. })) => {
            assert_eq!(target, "daily-note");
            assert_eq!(descriptor.title, "Daily Note")
        }
        other => panic!("expected a creation, got {:?}", other),
    }
    assert_eq!(m.finish_create("daily-note", Some(1)), Ok(1));
    match m.on_trigger(chord_d()) {
        Some((_, OpenStep::Focus { handle })) => assert_eq!(handle, 1),
        other => panic!("expected a focus, got {:?}", other),
    }
    assert_eq!(m.unregister_shortcut(chord_d()), Ok(()));
    assert!(m.on_trigger(chord_d()).is_none());
    assert_eq!(m.list().len(), 1);
}

#[test]
fn open_twice_keeps_one_window() {
    let mut m = WindowManager::new(WindowCatalog::new(Vec::new()));
    assert!(matches!(m.open_or_focus("a"), OpenStep::Create { .. }));
    assert!(!m.is_open("a"));
    assert_eq!(m.finish_create("a", Some(3)), Ok(3));
    assert!(m.is_open("a"));
    assert!(matches!(m.open_or_focus("a"), OpenStep::Focus { handle: 3 }));
    assert_eq!(m.list(), vec!["a".to_string()]);
}

#[test]
fn close_then_open_creates_anew() {
    let mut m = WindowManager::new(daily_catalog());
    m.finish_create("daily-note", Some(5)).unwrap();
    assert_eq!(m.close("daily-note"), Ok(5));
    assert_eq!(m.finish_close("daily-note", true), Ok(()));
    assert!(m.list().is_empty());
    assert!(matches!(m.open_or_focus("daily-note"), OpenStep::Create { .. }));
}

#[test]
fn close_unknown_is_not_found() {
    let m = WindowManager::new(daily_catalog());
    assert_eq!(m.close("nothing"), Err(WindowError::NotFound));
}

#[test]
fn failed_close_keeps_entry() {
    let mut m = WindowManager::new(daily_catalog());
    m.finish_create("daily-note", Some(2)).unwrap();
    assert_eq!(m.finish_close("daily-note", false), Err(WindowError::CloseFailed));
    assert_eq!(m.list(), vec!["daily-note".to_string()]);
    assert_eq!(m.close("daily-note"), Ok(2));
}

#[test]
fn failed_create_registers_nothing() {
    let mut m = WindowManager::new(daily_catalog());
    assert_eq!(m.finish_create("daily-note", None), Err(WindowError::CreateFailed));
    assert!(m.list().is_empty());
    assert!(matches!(m.open_or_focus("daily-note"), OpenStep::Create { .. }));
}

#[test]
fn focus_outcomes() {
    assert_eq!(focus_outcome(true, true), Ok(()));
    assert_eq!(focus_outcome(false, true), Err(WindowError::ShowFailed));
    assert_eq!(focus_outcome(false, false), Err(WindowError::ShowFailed));
    assert_eq!(focus_outcome(true, false), Err(WindowError::FocusFailed));
}

#[test]
fn destroyed_window_leaves_list_and_publishes_once() {
    let mut m = WindowManager::new(daily_catalog());
    m.finish_create("daily-note", Some(1)).unwrap();
    m.finish_create("other", Some(2)).unwrap();
    m.on_window_destroyed("daily-note");
    assert_eq!(m.list(), vec!["other".to_string()]);
    let events = m.take_events();
    assert_eq!(events.len(), 1);
    assert_eq!(events[0].name, "window-closed");
    assert_eq!(events[0].id, "daily-note");
    assert!(m.take_events().is_empty());
    assert!(matches!(m.open_or_focus("daily-note"), OpenStep::Create { .. }));
}

#[test]
fn destroyed_twice_is_harmless() {
    let mut reg = WindowRegistry::new();
    reg.finish_create("x", Some(4)).unwrap();
    reg.remove_on_destroyed("x");
    reg.remove_on_destroyed("x");
    assert!(reg.list().is_empty());
    assert_eq!(reg.handle_of("x"), None);
}

#[test]
fn duplicate_chord_is_refused_and_first_binding_kept() {
    let mut t = ShortcutTable::new();
    assert_eq!(t.register(chord_d(), "daily-note"), Ok(()));
    assert_eq!(t.register(chord_d(), "other"), Err(ShortcutError::DuplicateChord));
    assert_eq!(t.register(chord_d(), "daily-note"), Err(ShortcutError::DuplicateChord));
    assert_eq!(t.resolve(chord_d()), Some("daily-note".to_string()));
}

#[test]
fn unregister_unbound_chord() {
    let mut t = ShortcutTable::new();
    assert_eq!(t.unregister(chord_d()), Err(ShortcutError::NotBound));
    t.register(chord_d(), "a").unwrap();
    assert!(t.is_registered(chord_d()));
    assert_eq!(t.unregister(chord_d()), Ok(()));
    assert!(!t.is_registered(chord_d()));
    assert_eq!(t.resolve(chord_d()), None);
}

#[test]
fn chord_normalises_key() {
    assert_eq!(Chord::new(true, true, true, b'd'), Chord::new(true, true, true, b'D'));
    assert_eq!(Chord::new(false, true, false, b'7').unwrap().key, b'7');
    assert_eq!(Chord::new(true, false, false, b'+'), None);
    assert_ne!(Chord::new(true, true, false, b'D'), Chord::new(true, true, true, b'D'));
}

#[test]
fn content_url_joins_params() {
    let mut d = descriptor("flex-workspace", "Flex", 800, 600, 0, 0);
    d.params.push(QueryParam { key: "theme".to_string(), value: "dark".to_string() });
    d.params.push(QueryParam { key: "defaultTab".to_string(), value: "notes".to_string() });
    assert_eq!(d.content_url(), "index.html?theme=dark&defaultTab=notes");
    let m = WindowManager::new(WindowCatalog::new(vec![d]));
    match m.open_or_focus("flex-workspace") {
        OpenStep::Create { url, .. } => assert_eq!(url, "index.html?theme=dark&defaultTab=notes"),
        other => panic!("expected a creation, got {:?}", other),
    }
}

#[test]
fn catalog_lookup_takes_first_match() {
    let c = WindowCatalog::new(vec![
        descriptor("a", "First", 1, 1, 0, 0),
        descriptor("a", "Second", 2, 2, 0, 0),
    ]);
    assert_eq!(c.find_window_definition("a").unwrap().title, "First");
    assert!(c.find_window_definition("b").is_none());
    assert_eq!(c.resolve_or_fallback("b").title, "Window (b)");
}

#[test]
fn flex_alias_maps_to_workspace() {
    assert_eq!(canonical_window_id("flex"), "flex-workspace");
    assert_eq!(canonical_window_id("daily-note"), "daily-note");
    assert_eq!(canonical_window_id("flexible"), "flexible");
}

#[test]
fn status_lines() {
    assert_eq!(greet("Ann"), "Hello, Ann! You've been greeted from Rust!");
    assert_eq!(open_status("daily-note"), "Window 'daily-note' opened/focused");
    assert_eq!(close_status("a", Ok(())), "Window 'a' closed");
    assert_eq!(close_status("a", Err(WindowError::NotFound)), "Window 'a' not found");
    assert_eq!(close_status("a", Err(WindowError::CloseFailed)), "Failed to close window 'a'");
    assert_eq!(
        registration_status(true, false, true),
        "Daily Note: true, Current Task: false, Flex: true"
    );
}

#[test]
fn standard_shortcuts_install_once() {
    let mut m = WindowManager::new(daily_catalog());
    assert_eq!(shortcut_status(&m), "Daily Note: false, Current Task: false, Flex: false");
    let (a, b, c) = install_standard_shortcuts(&mut m);
    assert_eq!((a, b, c), (Ok(()), Ok(()), Ok(())));
    assert_eq!(shortcut_status(&m), "Daily Note: true, Current Task: true, Flex: true");
    let again = install_standard_shortcuts(&mut m);
    assert_eq!(again.0, Err(ShortcutError::DuplicateChord));
    assert_eq!(standard_chord(b'd'), Some(chord_d()));
    assert_eq!(standard_chord(FLEX_KEY).unwrap().key, b'S');
    assert_eq!(standard_chord(CURRENT_TASK_KEY).unwrap().key, b'T');
    assert_eq!(DAILY_NOTE_KEY, b'D');
    match m.on_trigger(standard_chord(FLEX_KEY).unwrap()) {
        Some((target, OpenStep::Create { descriptor, .. })) => {
            assert_eq!(target, "flex-workspace");
            assert_eq!(descriptor.title, "Window (flex-workspace)")
        }
        other => panic!("expected a creation, got {:?}", other),
    }
}
