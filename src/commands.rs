use vstd::prelude::*;
use vstd::string::StringExecFns;
use crate::manager::WindowManager;
use crate::registry::WindowError;
use crate::shortcuts::{after_register, register_result, Chord, ShortcutError};

verus! {

/// Identifiers kept for compatibility with older front ends: `flex` once named the
/// window now called `flex-workspace`. Every other identifier stands for itself.
pub open spec fn alias_of(requested: Seq<char>) -> Seq<char> {
    if requested == "flex"@ {
        "flex-workspace"@
    } else {
        requested
    }
}

/// The identifier a request for `requested` applies to, after the compatibility aliases.
pub fn canonical_window_id(requested: &str) -> (r: String)
    ensures
        r@ == alias_of(requested@),
{
    let s = String::from_str(requested);
    if s == String::from_str("flex") {
        String::from_str("flex-workspace")
    } else {
        s
    }
}

/// The greeting shown by the front end's smoke test.
pub fn greet(name: &str) -> (r: String)
    ensures
        r@ == "Hello, "@ + name@ + "! You've been greeted from Rust!"@,
{
    let mut r = String::from_str("Hello, ");
    r.append(name);
    r.append("! You've been greeted from Rust!");
    r
}

/// `'id'`, quoted for a status line.
pub open spec fn quoted(id: Seq<char>) -> Seq<char> {
    "'"@ + id + "'"@
}

fn push_quoted(s: &mut String, id: &str)
    ensures
        final(s)@ == old(s)@ + quoted(id@),
{
    s.append("'");
    s.append(id);
    s.append("'");
}

/// The status line for an open-or-focus request made by a command.
pub fn open_status(id: &str) -> (r: String)
    ensures
        r@ == "Window "@ + quoted(id@) + " opened/focused"@,
{
    let mut r = String::from_str("Window ");
    push_quoted(&mut r, id);
    r.append(" opened/focused");
    r
}

/// The status line for a close request and what it gave.
pub open spec fn close_status_of(id: Seq<char>, outcome: Result<(), WindowError>) -> Seq<char> {
    match outcome {
        Ok(()) => "Window "@ + quoted(id) + " closed"@,
        Err(WindowError::NotFound) => "Window "@ + quoted(id) + " not found"@,
        Err(_) => "Failed to close window "@ + quoted(id),
    }
}

/// The status line for a close request and what it gave.
pub fn close_status(id: &str, outcome: Result<(), WindowError>) -> (r: String)
    ensures
        r@ == close_status_of(id@, outcome),
{
    match outcome {
        Ok(()) => {
            let mut r = String::from_str("Window ");
            push_quoted(&mut r, id);
            r.append(" closed");
            r
        },
        Err(WindowError::NotFound) => {
            let mut r = String::from_str("Window ");
            push_quoted(&mut r, id);
            r.append(" not found");
            r
        },
        Err(_) => {
            let mut r = String::from_str("Failed to close window ");
            push_quoted(&mut r, id);
            r
        },
    }
}

/// `true` or `false`, as text.
pub open spec fn bool_text(b: bool) -> Seq<char> {
    if b {
        "true"@
    } else {
        "false"@
    }
}

fn push_bool(s: &mut String, b: bool)
    ensures
        final(s)@ == old(s)@ + bool_text(b),
{
    if b {
        s.append("true");
    } else {
        s.append("false");
    }
}

/// Which of the three standard chords are bound, as one line.
pub open spec fn registration_status_of(daily: bool, task: bool, flex: bool) -> Seq<char> {
    "Daily Note: "@ + bool_text(daily) + ", Current Task: "@ + bool_text(task) + ", Flex: "@
        + bool_text(flex)
}

/// Which of the three standard chords are bound, as one line.
pub fn registration_status(daily: bool, task: bool, flex: bool) -> (r: String)
    ensures
        r@ == registration_status_of(daily, task, flex),
{
    let mut r = String::from_str("Daily Note: ");
    push_bool(&mut r, daily);
    r.append(", Current Task: ");
    push_bool(&mut r, task);
    r.append(", Flex: ");
    push_bool(&mut r, flex);
    r
}

/// The standard chord for `key`: primary modifier, alt and shift together.
pub fn standard_chord(key: u8) -> (r: Option<Chord>)
    ensures
        match crate::shortcuts::normal_key(key) {
            Some(k) => r == Some(Chord { primary: true, alt: true, shift: true, key: k }),
            None => r is None,
        },
{
    Chord::new(true, true, true, key)
}

/// Key codes of the standard bindings: `D` for the daily note, `T` for the current task,
/// `S` for the flex workspace.
pub const DAILY_NOTE_KEY: u8 = 68;
pub const CURRENT_TASK_KEY: u8 = 84;
pub const FLEX_KEY: u8 = 83;

/// The standard chord for an already normalised key.
pub open spec fn std_chord(key: u8) -> Chord {
    Chord { primary: true, alt: true, shift: true, key }
}

/// The status line for the three standard chords, read from the manager's table.
pub fn shortcut_status(manager: &WindowManager) -> (r: String)
    requires
        manager.wf(),
    ensures
        r@ == registration_status_of(
            manager@.bound.contains_key(std_chord(DAILY_NOTE_KEY)),
            manager@.bound.contains_key(std_chord(CURRENT_TASK_KEY)),
            manager@.bound.contains_key(std_chord(FLEX_KEY)),
        ),
{
    let daily = manager.is_shortcut_registered(
        Chord { primary: true, alt: true, shift: true, key: DAILY_NOTE_KEY },
    );
    let task = manager.is_shortcut_registered(
        Chord { primary: true, alt: true, shift: true, key: CURRENT_TASK_KEY },
    );
    let flex = manager.is_shortcut_registered(
        Chord { primary: true, alt: true, shift: true, key: FLEX_KEY },
    );
    registration_status(daily, task, flex)
}

/// Binds the three standard chords: `D` to `daily-note`, `T` to `current-task` and `S` to
/// `flex-workspace`, each with primary, alt and shift. Each registration reports on its own.
pub fn install_standard_shortcuts(manager: &mut WindowManager) -> (r: (
    Result<(), ShortcutError>,
    Result<(), ShortcutError>,
    Result<(), ShortcutError>,
))
    requires
        old(manager).wf(),
    ensures
        final(manager).wf(),
        final(manager)@.live == old(manager)@.live,
        final(manager)@.events == old(manager)@.events,
        final(manager)@.catalog == old(manager)@.catalog,
        ({
            let b0 = old(manager)@.bound;
            let b1 = after_register(b0, std_chord(DAILY_NOTE_KEY), "daily-note"@);
            let b2 = after_register(b1, std_chord(CURRENT_TASK_KEY), "current-task"@);
            let b3 = after_register(b2, std_chord(FLEX_KEY), "flex-workspace"@);
            &&& r.0 == register_result(b0, std_chord(DAILY_NOTE_KEY))
            &&& r.1 == register_result(b1, std_chord(CURRENT_TASK_KEY))
            &&& r.2 == register_result(b2, std_chord(FLEX_KEY))
            &&& final(manager)@.bound == b3
        }),
{
    let a = manager.register_shortcut(
        Chord { primary: true, alt: true, shift: true, key: DAILY_NOTE_KEY },
        "daily-note",
    );
    let b = manager.register_shortcut(
        Chord { primary: true, alt: true, shift: true, key: CURRENT_TASK_KEY },
        "current-task",
    );
    let c = manager.register_shortcut(
        Chord { primary: true, alt: true, shift: true, key: FLEX_KEY },
        "flex-workspace",
    );
    (a, b, c)
}

} // verus!
