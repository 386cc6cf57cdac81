//! Tests of the store mutation rules and the modal edit-session state
//! machine.

use lscoltui::colours::{
    cycle_colour_backward, cycle_colour_forward, ColourEntry, Effects, TerminalColour,
};
use lscoltui::controller::{
    handle_key_event, App, DialogState, EditField, EditTarget, InputEvent,
};
use lscoltui::scheme::SlotKind;
use lscoltui::store::SaveFile;

fn store_with(names: &[&str]) -> SaveFile {
    let mut savefile = SaveFile::new();
    for name in names {
        assert!(savefile.create_scheme(name.to_string()));
    }
    savefile
}

fn open_session(names: &[&str], open: usize) -> App {
    App {
        exit: false,
        savefile: store_with(names),
        open_scheme: Some(open),
        content_loc: 0,
        dialog_state: DialogState::Closed,
    }
}

#[test]
fn create_scheme_rejects_empty_and_duplicate_names() {
    let mut savefile = SaveFile::new();
    assert!(savefile.create_scheme("work".to_string()));
    assert_eq!(savefile.schemes.len(), 1);
    assert!(!savefile.create_scheme("work".to_string()));
    assert_eq!(savefile.schemes.len(), 1);
    assert!(!savefile.create_scheme(String::new()));
    assert_eq!(savefile.schemes.len(), 1);
}

#[test]
fn add_extension_rejects_empty_and_scheme_name_collisions() {
    let mut savefile = store_with(&["work", "play"]);
    // The stored uniqueness rule checks scheme names, not the target
    // scheme's own extension names.
    assert!(!savefile.add_extension(0, "play".to_string()));
    assert_eq!(savefile.schemes[0].1.extensions.len(), 0);
    assert!(!savefile.add_extension(0, String::new()));
    assert_eq!(savefile.schemes[0].1.extensions.len(), 0);
    assert!(savefile.add_extension(0, "txt".to_string()));
    assert_eq!(savefile.schemes[0].1.extensions.len(), 1);
    assert_eq!(savefile.schemes[0].1.extensions[0].0, "txt");
    assert_eq!(
        savefile.schemes[0].1.extensions[0].1,
        ColourEntry::new(Effects::Default, None, None)
    );
    // The same name can be added twice: only scheme names are checked.
    assert!(savefile.add_extension(0, "txt".to_string()));
    assert_eq!(savefile.schemes[0].1.extensions.len(), 2);
}

#[test]
fn browse_cursor_wraps_at_both_ends() {
    let mut app = open_session(&["work"], 0);
    assert!(app.savefile.add_extension(0, "txt".to_string()));
    assert!(app.savefile.add_extension(0, "log".to_string()));
    // 18 fixed rows + 2 extensions = 20 rows.
    app.content_loc = 0;
    handle_key_event(&mut app, InputEvent::Up);
    assert_eq!(app.content_loc, 19);
    handle_key_event(&mut app, InputEvent::Down);
    assert_eq!(app.content_loc, 0);
    handle_key_event(&mut app, InputEvent::Down);
    assert_eq!(app.content_loc, 1);
}

#[test]
fn browse_cursor_ignored_without_open_scheme() {
    let mut app = App {
        exit: false,
        savefile: SaveFile::new(),
        open_scheme: None,
        content_loc: 0,
        dialog_state: DialogState::Closed,
    };
    handle_key_event(&mut app, InputEvent::Up);
    assert_eq!(app.content_loc, 0);
    handle_key_event(&mut app, InputEvent::Enter);
    assert_eq!(app.dialog_state, DialogState::Closed);
}

#[test]
fn foreground_cycle_endpoints() {
    assert_eq!(cycle_colour_forward(None), Some(TerminalColour::Red));
    assert_eq!(cycle_colour_forward(Some(TerminalColour::White)), None);
    assert_eq!(cycle_colour_backward(None), Some(TerminalColour::White));
    assert_eq!(cycle_colour_backward(Some(TerminalColour::Red)), None);
    assert_eq!(
        cycle_colour_forward(Some(TerminalColour::Gray)),
        Some(TerminalColour::Black)
    );
}

#[test]
fn foreground_cycle_through_session() {
    let mut app = open_session(&["work"], 0);
    handle_key_event(&mut app, InputEvent::Enter);
    assert_eq!(
        app.dialog_state,
        DialogState::EditingColour(EditField::Foreground, EditTarget::Slot(SlotKind::Normal))
    );
    // The slot starts at White, the last palette colour: forward wraps to
    // unset, one more step selects the first palette colour.
    handle_key_event(&mut app, InputEvent::Right);
    assert_eq!(app.savefile.schemes[0].1.norm.fg, None);
    handle_key_event(&mut app, InputEvent::Right);
    assert_eq!(app.savefile.schemes[0].1.norm.fg, Some(TerminalColour::Red));
    handle_key_event(&mut app, InputEvent::Left);
    assert_eq!(app.savefile.schemes[0].1.norm.fg, None);
    handle_key_event(&mut app, InputEvent::Left);
    assert_eq!(
        app.savefile.schemes[0].1.norm.fg,
        Some(TerminalColour::White)
    );
}

#[test]
fn picker_cursor_clamps() {
    let mut app = open_session(&["work", "play"], 0);
    handle_key_event(&mut app, InputEvent::OpenPicker);
    assert_eq!(app.dialog_state, DialogState::PickScheme(0));
    handle_key_event(&mut app, InputEvent::Up);
    assert_eq!(app.dialog_state, DialogState::PickScheme(0));
    handle_key_event(&mut app, InputEvent::Down);
    assert_eq!(app.dialog_state, DialogState::PickScheme(1));
    handle_key_event(&mut app, InputEvent::Down);
    assert_eq!(app.dialog_state, DialogState::PickScheme(1));
}

#[test]
fn deleting_open_scheme_clears_open_reference() {
    let mut app = open_session(&["work"], 0);
    handle_key_event(&mut app, InputEvent::OpenPicker);
    let save = handle_key_event(&mut app, InputEvent::Delete);
    assert!(save);
    assert_eq!(app.open_scheme, None);
    assert_eq!(app.savefile.schemes.len(), 0);
    handle_key_event(&mut app, InputEvent::Esc);
    // Operations that need an open scheme are now no-ops.
    handle_key_event(&mut app, InputEvent::Enter);
    assert_eq!(app.dialog_state, DialogState::Closed);
    handle_key_event(&mut app, InputEvent::OpenExport);
    assert_eq!(app.dialog_state, DialogState::Closed);
    handle_key_event(&mut app, InputEvent::StartNewExtension);
    assert_eq!(app.dialog_state, DialogState::Closed);
}

#[test]
fn deleting_extension_under_cursor() {
    let mut app = open_session(&["work"], 0);
    assert!(app.savefile.add_extension(0, "txt".to_string()));
    assert!(app.savefile.add_extension(0, "log".to_string()));
    app.content_loc = 18;
    handle_key_event(&mut app, InputEvent::Delete);
    assert_eq!(app.savefile.schemes[0].1.extensions.len(), 1);
    assert_eq!(app.savefile.schemes[0].1.extensions[0].0, "log");
    // Row 18 is now the last row; deleting it sends the cursor home.
    handle_key_event(&mut app, InputEvent::Delete);
    assert_eq!(app.savefile.schemes[0].1.extensions.len(), 0);
    assert_eq!(app.content_loc, 0);
    // A slot row is never deletable.
    handle_key_event(&mut app, InputEvent::Delete);
    assert_eq!(app.savefile.schemes.len(), 1);
}

#[test]
fn typing_and_backspace_edit_the_name_buffer() {
    let mut app = App {
        exit: false,
        savefile: SaveFile::new(),
        open_scheme: None,
        content_loc: 0,
        dialog_state: DialogState::Closed,
    };
    handle_key_event(&mut app, InputEvent::StartNewScheme);
    handle_key_event(&mut app, InputEvent::Char('a'));
    handle_key_event(&mut app, InputEvent::Char('b'));
    handle_key_event(&mut app, InputEvent::Backspace);
    handle_key_event(&mut app, InputEvent::Char('c'));
    assert_eq!(app.dialog_state, DialogState::NewScheme("ac".to_string()));
    let save = handle_key_event(&mut app, InputEvent::Enter);
    assert!(save);
    assert_eq!(app.savefile.schemes[0].0, "ac");
    assert_eq!(app.open_scheme, Some(0));
    assert_eq!(app.dialog_state, DialogState::Closed);
}

#[test]
fn empty_or_taken_name_keeps_dialog_open() {
    let mut app = open_session(&["work"], 0);
    handle_key_event(&mut app, InputEvent::StartNewScheme);
    let save = handle_key_event(&mut app, InputEvent::Enter);
    assert!(!save);
    assert_eq!(app.dialog_state, DialogState::NewScheme(String::new()));
    assert_eq!(app.savefile.schemes.len(), 1);
    for c in "work".chars() {
        handle_key_event(&mut app, InputEvent::Char(c));
    }
    let save = handle_key_event(&mut app, InputEvent::Enter);
    assert!(!save);
    assert_eq!(app.dialog_state, DialogState::NewScheme("work".to_string()));
    assert_eq!(app.savefile.schemes.len(), 1);
}

#[test]
fn empty_picker_selects_and_deletes_nothing() {
    let mut app = App {
        exit: false,
        savefile: SaveFile::new(),
        open_scheme: None,
        content_loc: 0,
        dialog_state: DialogState::Closed,
    };
    handle_key_event(&mut app, InputEvent::OpenPicker);
    assert_eq!(app.dialog_state, DialogState::PickScheme(0));
    handle_key_event(&mut app, InputEvent::Enter);
    assert_eq!(app.dialog_state, DialogState::PickScheme(0));
    assert_eq!(app.open_scheme, None);
    let save = handle_key_event(&mut app, InputEvent::Delete);
    assert!(!save);
    assert_eq!(app.savefile.schemes.len(), 0);
}

#[test]
fn find_scheme_misses_unknown_names() {
    let savefile = store_with(&["work"]);
    assert_eq!(savefile.find_scheme(&"work".to_string()), Some(0));
    assert_eq!(savefile.find_scheme(&"gone".to_string()), None);
    assert_eq!(savefile.find_scheme(&String::new()), None);
}

#[test]
fn quit_records_open_scheme_as_most_recent() {
    let mut app = open_session(&["work", "play"], 1);
    let save = handle_key_event(&mut app, InputEvent::Quit);
    assert!(save);
    assert!(app.exit);
    assert_eq!(app.savefile.most_recent, "play");
}

#[test]
fn new_session_reopens_most_recent_scheme() {
    let mut savefile = store_with(&["work", "play"]);
    savefile.most_recent = "play".to_string();
    let app = App::new(savefile);
    assert_eq!(app.open_scheme, Some(1));
    let mut savefile = store_with(&["work"]);
    savefile.most_recent = "gone".to_string();
    let app = App::new(savefile);
    assert_eq!(app.open_scheme, None);
    let app = App::new(SaveFile::new());
    assert_eq!(app.open_scheme, None);
}

#[test]
fn end_to_end_create_edit_export() {
    let mut app = App::new(SaveFile::new());
    handle_key_event(&mut app, InputEvent::StartNewScheme);
    for c in "work".chars() {
        handle_key_event(&mut app, InputEvent::Char(c));
    }
    let save = handle_key_event(&mut app, InputEvent::Enter);
    assert!(save);
    assert_eq!(app.open_scheme, Some(0));
    // Move to the directory row and open the editor on its foreground.
    handle_key_event(&mut app, InputEvent::Down);
    handle_key_event(&mut app, InputEvent::Down);
    handle_key_event(&mut app, InputEvent::Enter);
    assert_eq!(
        app.dialog_state,
        DialogState::EditingColour(EditField::Foreground, EditTarget::Slot(SlotKind::Directory))
    );
    // The foreground starts at Blue (the default); reset it to unset,
    // then step to the fourth palette colour: Red, Green, Orange, Blue.
    while app.savefile.schemes[0].1.dir.fg.is_some() {
        handle_key_event(&mut app, InputEvent::Left);
    }
    for _ in 0..4 {
        handle_key_event(&mut app, InputEvent::Right);
    }
    assert_eq!(app.savefile.schemes[0].1.dir.fg, Some(TerminalColour::Blue));
    // Switch the edited field to the effect and set it to Bold.
    handle_key_event(&mut app, InputEvent::Up);
    assert_eq!(
        app.dialog_state,
        DialogState::EditingColour(EditField::Effect, EditTarget::Slot(SlotKind::Directory))
    );
    while app.savefile.schemes[0].1.dir.effects != Effects::Bold {
        handle_key_event(&mut app, InputEvent::Right);
    }
    handle_key_event(&mut app, InputEvent::Esc);
    // Export: the directory segment of the encoding is exactly 01;34.
    let encoded = app.savefile.schemes[0].1.parse();
    let segment = encoded
        .split(':')
        .find(|seg| seg.starts_with("di="))
        .unwrap();
    assert_eq!(segment, "di=01;34");
}
