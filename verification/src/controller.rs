//! The modal edit-session state machine. A session holds the store, an
//! optional open scheme, a browse cursor, and a dialog state; every
//! mutation of the model is driven by one discrete input event at a time
//! through [`handle_key_event`], whose whole behaviour is the
//! mathematical transition function [`step`].

use vstd::prelude::*;

use crate::colours::{
    spec_colour_backward, spec_colour_forward, spec_effect_backward, spec_effect_forward,
    cycle_colour_backward, cycle_colour_forward, cycle_effect_backward, cycle_effect_forward,
    ColourEntry,
};
use crate::scheme::{
    colourless_entry, default_scheme, slot_entry, with_extension_entry, with_pushed_extension,
    with_removed_extension, with_slot, SchemeV, SlotKind,
};
use crate::store::{contains_name, SaveFile, StoreV};

verus! {

/// Relies on `String::push` from std: appends the given character to the
/// end of the string.
pub assume_specification[ String::push ](s: &mut String, c: char)
    ensures
        final(s)@ == old(s)@.push(c),
;

/// Relies on `String::pop` from std: removes and returns the last
/// character, or returns `None` and leaves the string untouched when it
/// is empty.
pub assume_specification[ String::pop ](s: &mut String) -> (r: Option<char>)
    ensures
        old(s)@.len() == 0 ==> r is None && final(s)@ == old(s)@,
        old(s)@.len() > 0 ==> r == Some(old(s)@.last()) && final(s)@ == old(s)@.drop_last(),
;

/// One discrete input event of the interactive session: the five
/// session-level triggers, the directional keys, and the text-editing
/// keys.
#[derive(Debug, Clone, Copy, PartialEq)]
pub enum InputEvent {
    /// Open the scheme picker.
    OpenPicker,
    /// Open the new-scheme name dialog.
    StartNewScheme,
    /// Open the new-extension name dialog.
    StartNewExtension,
    /// Show the export line of the open scheme.
    OpenExport,
    /// Record the open scheme as most recently used, persist, and end the
    /// session.
    Quit,
    Up,
    Down,
    Left,
    Right,
    Enter,
    Esc,
    Backspace,
    Delete,
    Char(char),
}

/// The entry attribute an edit currently addresses.
#[derive(Debug, Clone, Copy, PartialEq, Eq, Structural)]
pub enum EditField {
    Foreground,
    Background,
    Effect,
}

/// The entry an edit addresses: a fixed slot, or an extension by its
/// position in the open scheme's extension list.
#[derive(Debug, Clone, Copy, PartialEq, Eq, Structural)]
pub enum EditTarget {
    Slot(SlotKind),
    Extension(usize),
}

/// The modal dialog state of the session.
#[derive(Debug, Clone, PartialEq)]
pub enum DialogState {
    /// No dialog: browsing the open scheme's rows.
    Closed,
    /// Choosing a scheme; the cursor over the scheme list.
    PickScheme(usize),
    /// Typing the name of a scheme to create.
    NewScheme(String),
    /// Typing the name of an extension to add to the open scheme.
    NewExtension(String),
    /// Editing one attribute of one entry of the open scheme.
    EditingColour(EditField, EditTarget),
    /// Showing the export line; read-only.
    Export,
}

/// The whole state of an edit session.
#[derive(Debug, Clone)]
pub struct App {
    /// Whether the session has ended.
    pub exit: bool,
    /// The store of named schemes.
    pub savefile: SaveFile,
    /// The position of the open scheme in the store, if one is open.
    pub open_scheme: Option<usize>,
    /// The browse cursor over the open scheme's `18 + extensions` rows.
    pub content_loc: usize,
    /// The modal dialog state.
    pub dialog_state: DialogState,
}

/// The mathematical value of the edit target.
#[verifier::ext_equal]
pub ghost enum TargetV {
    Slot(SlotKind),
    Extension(int),
}

/// The mathematical value of the dialog state.
#[verifier::ext_equal]
pub ghost enum DialogV {
    Closed,
    PickScheme(int),
    NewScheme(Seq<char>),
    NewExtension(Seq<char>),
    EditingColour(EditField, TargetV),
    Export,
}

/// The mathematical value of a session.
#[verifier::ext_equal]
pub ghost struct AppV {
    pub exit: bool,
    pub store: StoreV,
    pub open_scheme: Option<int>,
    pub content_loc: int,
    pub dialog: DialogV,
}

impl View for EditTarget {
    type V = TargetV;

    open spec fn view(&self) -> TargetV {
        match self {
            EditTarget::Slot(k) => TargetV::Slot(*k),
            EditTarget::Extension(j) => TargetV::Extension(*j as int),
        }
    }
}

impl View for DialogState {
    type V = DialogV;

    open spec fn view(&self) -> DialogV {
        match self {
            DialogState::Closed => DialogV::Closed,
            DialogState::PickScheme(c) => DialogV::PickScheme(*c as int),
            DialogState::NewScheme(s) => DialogV::NewScheme(s@),
            DialogState::NewExtension(s) => DialogV::NewExtension(s@),
            DialogState::EditingColour(f, t) => DialogV::EditingColour(*f, t@),
            DialogState::Export => DialogV::Export,
        }
    }
}

impl View for App {
    type V = AppV;

    open spec fn view(&self) -> AppV {
        AppV {
            exit: self.exit,
            store: self.savefile@,
            open_scheme: match self.open_scheme {
                Some(i) => Some(i as int),
                None => None,
            },
            content_loc: self.content_loc as int,
            dialog: self.dialog_state@,
        }
    }
}

/// The largest extension count a scheme may reach: the extension list
/// must stay addressable as rows beside the 18 fixed rows on the
/// platform's index type.
pub open spec fn ext_capacity() -> int {
    usize::MAX - 18
}

/// The scheme the session has open. Meaningful only when one is open.
pub open spec fn open_scheme_of(m: AppV) -> SchemeV
    recommends
        m.open_scheme is Some,
{
    m.store.schemes[m.open_scheme.unwrap()].1
}

/// How many rows the browse list of the open scheme has: the 18 fixed
/// slots plus one row per extension.
pub open spec fn rows(m: AppV) -> int
    recommends
        m.open_scheme is Some,
{
    18 + open_scheme_of(m).extensions.len() as int
}

/// One step of the browse cursor upwards, wrapping below row 0 to the
/// last row.
pub open spec fn wrap_up(loc: int, rows: int) -> int {
    if loc == 0 {
        rows - 1
    } else {
        loc - 1
    }
}

/// One step of the browse cursor downwards, wrapping past the last row
/// to row 0.
pub open spec fn wrap_down(loc: int, rows: int) -> int {
    if loc + 1 >= rows {
        0
    } else {
        loc + 1
    }
}

/// The fixed slot shown on a browse row below 18.
pub open spec fn row_slot(row: int) -> SlotKind {
    if row == 0 {
        SlotKind::Normal
    } else if row == 1 {
        SlotKind::File
    } else if row == 2 {
        SlotKind::Directory
    } else if row == 3 {
        SlotKind::Symlink
    } else if row == 4 {
        SlotKind::Pipe
    } else if row == 5 {
        SlotKind::Door
    } else if row == 6 {
        SlotKind::Block
    } else if row == 7 {
        SlotKind::Character
    } else if row == 8 {
        SlotKind::OrphanedSymlink
    } else if row == 9 {
        SlotKind::Socket
    } else if row == 10 {
        SlotKind::SetUid
    } else if row == 11 {
        SlotKind::SetGid
    } else if row == 12 {
        SlotKind::StickyOtherWritable
    } else if row == 13 {
        SlotKind::OtherWritable
    } else if row == 14 {
        SlotKind::Sticky
    } else if row == 15 {
        SlotKind::Executable
    } else if row == 16 {
        SlotKind::Missing
    } else {
        SlotKind::EndCode
    }
}

/// The edit target shown on a browse row: one of the 18 fixed slots, or
/// an extension by position.
pub open spec fn target_of_row(row: int) -> TargetV {
    if row < 18 {
        TargetV::Slot(row_slot(row))
    } else {
        TargetV::Extension(row - 18)
    }
}

/// The entry an edit target addresses within a scheme.
pub open spec fn target_entry(v: SchemeV, t: TargetV) -> ColourEntry {
    match t {
        TargetV::Slot(k) => slot_entry(v, k),
        TargetV::Extension(j) => v.extensions[j].1,
    }
}

/// The scheme with the entry of an edit target replaced.
pub open spec fn with_target(v: SchemeV, t: TargetV, e: ColourEntry) -> SchemeV {
    match t {
        TargetV::Slot(k) => with_slot(v, k, e),
        TargetV::Extension(j) => with_extension_entry(v, j, e),
    }
}

/// The field above this one, wrapping from the first to the last.
pub open spec fn field_up(f: EditField) -> EditField {
    match f {
        EditField::Foreground => EditField::Effect,
        EditField::Background => EditField::Foreground,
        EditField::Effect => EditField::Background,
    }
}

/// The field below this one, wrapping from the last to the first.
pub open spec fn field_down(f: EditField) -> EditField {
    match f {
        EditField::Foreground => EditField::Background,
        EditField::Background => EditField::Effect,
        EditField::Effect => EditField::Foreground,
    }
}

/// The entry after cycling the attribute bound to one field a single
/// position forward or backward.
pub open spec fn edited_entry(e: ColourEntry, f: EditField, forward: bool) -> ColourEntry {
    match f {
        EditField::Foreground => ColourEntry {
            fg: if forward {
                spec_colour_forward(e.fg)
            } else {
                spec_colour_backward(e.fg)
            },
            ..e
        },
        EditField::Background => ColourEntry {
            bg: if forward {
                spec_colour_forward(e.bg)
            } else {
                spec_colour_backward(e.bg)
            },
            ..e
        },
        EditField::Effect => ColourEntry {
            effects: if forward {
                spec_effect_forward(e.effects)
            } else {
                spec_effect_backward(e.effects)
            },
            ..e
        },
    }
}

/// Well-formedness of a session: the open reference, the browse cursor,
/// the picker cursor and any in-progress edit all stay inside the
/// collections they index, and no extension list outgrows the row index
/// range. Every reachable session state satisfies this, and no event
/// handler indexes out of range, however empty the scheme or extension
/// lists are.
pub open spec fn wf(m: AppV) -> bool {
    &&& forall|i: int|
        0 <= i < m.store.schemes.len() ==> (#[trigger] m.store.schemes[i].1).extensions.len()
            <= ext_capacity()
    &&& match m.open_scheme {
        Some(i) => 0 <= i < m.store.schemes.len() && 0 <= m.content_loc < 18
            + m.store.schemes[i].1.extensions.len(),
        None => m.content_loc == 0,
    }
    &&& match m.dialog {
        DialogV::PickScheme(c) => c == 0 || 0 <= c < m.store.schemes.len(),
        DialogV::NewExtension(_) => m.open_scheme is Some,
        DialogV::EditingColour(_, t) => m.open_scheme is Some && match t {
            TargetV::Extension(j) => 0 <= j < open_scheme_of(m).extensions.len(),
            TargetV::Slot(_) => true,
        },
        _ => true,
    }
}

/// The store with the scheme at one position replaced, its name kept.
pub open spec fn store_with_scheme(s: StoreV, i: int, v: SchemeV) -> StoreV {
    StoreV { schemes: s.schemes.update(i, (s.schemes[i].0, v)), ..s }
}

/// Opening the picker presets its cursor to the open scheme, or to 0.
pub open spec fn step_open_picker(m: AppV) -> AppV {
    AppV {
        dialog: DialogV::PickScheme(
            match m.open_scheme {
                Some(i) => i,
                None => 0,
            },
        ),
        ..m
    }
}

/// The new-scheme dialog starts with an empty name buffer.
pub open spec fn step_start_new_scheme(m: AppV) -> AppV {
    AppV { dialog: DialogV::NewScheme(Seq::empty()), ..m }
}

/// The new-extension dialog starts with an empty name buffer; without an
/// open scheme the trigger does nothing.
pub open spec fn step_start_new_extension(m: AppV) -> AppV {
    if m.open_scheme is Some {
        AppV { dialog: DialogV::NewExtension(Seq::empty()), ..m }
    } else {
        m
    }
}

/// The export view opens only over an open scheme.
pub open spec fn step_open_export(m: AppV) -> AppV {
    if m.open_scheme is Some {
        AppV { dialog: DialogV::Export, ..m }
    } else {
        m
    }
}

/// Quitting records the open scheme, if any, as most recently used and
/// ends the session; the caller persists the store.
pub open spec fn step_quit(m: AppV) -> AppV {
    AppV {
        exit: true,
        store: StoreV {
            most_recent: match m.open_scheme {
                Some(i) => m.store.schemes[i].0,
                None => m.store.most_recent,
            },
            ..m.store
        },
        ..m
    }
}

/// Up moves the picker cursor clamped at 0, cycles the edited field, or
/// moves the browse cursor with wraparound.
pub open spec fn step_up(m: AppV) -> AppV {
    match m.dialog {
        DialogV::PickScheme(c) => AppV {
            dialog: DialogV::PickScheme(
                if c > 0 {
                    c - 1
                } else {
                    c
                },
            ),
            ..m
        },
        DialogV::EditingColour(f, t) => AppV { dialog: DialogV::EditingColour(field_up(f), t), ..m },
        DialogV::Closed => match m.open_scheme {
            Some(_) => AppV { content_loc: wrap_up(m.content_loc, rows(m)), ..m },
            None => m,
        },
        _ => m,
    }
}

/// Down moves the picker cursor clamped at the last scheme, cycles the
/// edited field, or moves the browse cursor with wraparound.
pub open spec fn step_down(m: AppV) -> AppV {
    match m.dialog {
        DialogV::PickScheme(c) => AppV {
            dialog: DialogV::PickScheme(
                if c + 1 < m.store.schemes.len() {
                    c + 1
                } else {
                    c
                },
            ),
            ..m
        },
        DialogV::EditingColour(f, t) => AppV {
            dialog: DialogV::EditingColour(field_down(f), t),
            ..m
        },
        DialogV::Closed => match m.open_scheme {
            Some(_) => AppV { content_loc: wrap_down(m.content_loc, rows(m)), ..m },
            None => m,
        },
        _ => m,
    }
}

/// Escape closes any dialog and does nothing when none is open.
pub open spec fn step_esc(m: AppV) -> AppV {
    match m.dialog {
        DialogV::Closed => m,
        _ => AppV { dialog: DialogV::Closed, ..m },
    }
}

/// Whether a new-scheme name is accepted: non-empty and not already a
/// scheme name.
pub open spec fn scheme_name_ok(m: AppV, buf: Seq<char>) -> bool {
    buf.len() > 0 && !contains_name(m.store.schemes, buf)
}

/// Whether a new-extension name is accepted: non-empty, not colliding
/// with an existing *scheme* name (the stored uniqueness quirk), and the
/// open scheme's extension list below its capacity bound.
pub open spec fn extension_name_ok(m: AppV, buf: Seq<char>) -> bool {
    buf.len() > 0 && !contains_name(m.store.schemes, buf) && m.open_scheme is Some
        && open_scheme_of(m).extensions.len() < ext_capacity()
}

/// Enter starts an edit on the row under the browse cursor, selects the
/// scheme under the picker cursor, or commits a pending name dialog;
/// a rejected name leaves the dialog open and the store untouched.
pub open spec fn step_enter(m: AppV) -> AppV {
    match m.dialog {
        DialogV::Closed => match m.open_scheme {
            Some(_) => AppV {
                dialog: DialogV::EditingColour(
                    EditField::Foreground,
                    target_of_row(m.content_loc),
                ),
                ..m
            },
            None => m,
        },
        DialogV::PickScheme(c) => if 0 <= c < m.store.schemes.len() {
            AppV { open_scheme: Some(c), content_loc: 0, dialog: DialogV::Closed, ..m }
        } else {
            m
        },
        DialogV::NewScheme(buf) => if scheme_name_ok(m, buf) {
            AppV {
                store: StoreV {
                    schemes: m.store.schemes.push((buf, default_scheme())),
                    ..m.store
                },
                open_scheme: Some(m.store.schemes.len() as int),
                content_loc: 0,
                dialog: DialogV::Closed,
                ..m
            }
        } else {
            m
        },
        DialogV::NewExtension(buf) => if extension_name_ok(m, buf) {
            AppV {
                store: store_with_scheme(
                    m.store,
                    m.open_scheme.unwrap(),
                    with_pushed_extension(open_scheme_of(m), buf, colourless_entry()),
                ),
                dialog: DialogV::Closed,
                ..m
            }
        } else {
            m
        },
        _ => m,
    }
}

/// A printable character extends the active name buffer.
pub open spec fn step_char(m: AppV, c: char) -> AppV {
    match m.dialog {
        DialogV::NewScheme(buf) => AppV { dialog: DialogV::NewScheme(buf.push(c)), ..m },
        DialogV::NewExtension(buf) => AppV { dialog: DialogV::NewExtension(buf.push(c)), ..m },
        _ => m,
    }
}

/// Backspace removes the last character of the active name buffer.
pub open spec fn step_backspace(m: AppV) -> AppV {
    match m.dialog {
        DialogV::NewScheme(buf) => AppV {
            dialog: DialogV::NewScheme(
                if buf.len() == 0 {
                    buf
                } else {
                    buf.drop_last()
                },
            ),
            ..m
        },
        DialogV::NewExtension(buf) => AppV {
            dialog: DialogV::NewExtension(
                if buf.len() == 0 {
                    buf
                } else {
                    buf.drop_last()
                },
            ),
            ..m
        },
        _ => m,
    }
}

/// Delete removes the scheme under the picker cursor (unconditionally
/// clearing the open reference), or the extension under the browse
/// cursor; both cursors are clamped back into range afterwards.
pub open spec fn step_delete(m: AppV) -> AppV {
    match m.dialog {
        DialogV::PickScheme(c) => if 0 <= c < m.store.schemes.len() {
            let schemes2 = m.store.schemes.remove(c);
            let c2 = if c < schemes2.len() {
                c
            } else if schemes2.len() > 0 {
                schemes2.len() - 1
            } else {
                0
            };
            AppV {
                store: StoreV { schemes: schemes2, ..m.store },
                open_scheme: None,
                content_loc: 0,
                dialog: DialogV::PickScheme(c2),
                ..m
            }
        } else {
            m
        },
        DialogV::Closed => match m.open_scheme {
            Some(i) => if m.content_loc >= 18 {
                let v2 = with_removed_extension(m.store.schemes[i].1, m.content_loc - 18);
                AppV {
                    store: store_with_scheme(m.store, i, v2),
                    content_loc: if m.content_loc < 18 + v2.extensions.len() {
                        m.content_loc
                    } else {
                        0
                    },
                    ..m
                }
            } else {
                m
            },
            None => m,
        },
        _ => m,
    }
}

/// Left or Right cycles the attribute bound to the edited field one
/// position and writes the changed entry straight back into the open
/// scheme.
pub open spec fn step_cycle(m: AppV, forward: bool) -> AppV {
    match m.dialog {
        DialogV::EditingColour(f, t) => match m.open_scheme {
            Some(i) => {
                let e = target_entry(m.store.schemes[i].1, t);
                AppV {
                    store: store_with_scheme(
                        m.store,
                        i,
                        with_target(m.store.schemes[i].1, t, edited_entry(e, f, forward)),
                    ),
                    ..m
                }
            },
            None => m,
        },
        _ => m,
    }
}

/// The transition function of the session: the state after one input
/// event.
pub open spec fn step(m: AppV, ev: InputEvent) -> AppV {
    match ev {
        InputEvent::OpenPicker => step_open_picker(m),
        InputEvent::StartNewScheme => step_start_new_scheme(m),
        InputEvent::StartNewExtension => step_start_new_extension(m),
        InputEvent::OpenExport => step_open_export(m),
        InputEvent::Quit => step_quit(m),
        InputEvent::Up => step_up(m),
        InputEvent::Down => step_down(m),
        InputEvent::Left => step_cycle(m, false),
        InputEvent::Right => step_cycle(m, true),
        InputEvent::Enter => step_enter(m),
        InputEvent::Esc => step_esc(m),
        InputEvent::Backspace => step_backspace(m),
        InputEvent::Delete => step_delete(m),
        InputEvent::Char(c) => step_char(m, c),
    }
}

/// Whether the event makes the caller persist the store: quitting,
/// committing a new scheme, and deleting a scheme are each followed by a
/// synchronous persist.
pub open spec fn step_saves(m: AppV, ev: InputEvent) -> bool {
    match ev {
        InputEvent::Quit => true,
        InputEvent::Enter => match m.dialog {
            DialogV::NewScheme(buf) => scheme_name_ok(m, buf),
            _ => false,
        },
        InputEvent::Delete => match m.dialog {
            DialogV::PickScheme(c) => 0 <= c < m.store.schemes.len(),
            _ => false,
        },
        _ => false,
    }
}

/// Law: every event handler keeps the session well formed — in
/// particular, an empty scheme list or extension list never makes a
/// cursor or an in-progress edit index out of range.
pub proof fn lemma_step_preserves_wf(m: AppV, ev: InputEvent)
    requires
        wf(m),
    ensures
        wf(step(m, ev)),
{
    let m2 = step(m, ev);
    match ev {
        InputEvent::Enter => {
            match m.dialog {
                DialogV::NewScheme(buf) => {
                    if scheme_name_ok(m, buf) {
                        assert forall|i: int| 0 <= i < m2.store.schemes.len() implies (
                        #[trigger] m2.store.schemes[i].1).extensions.len() <= ext_capacity() by {
                            if i < m.store.schemes.len() {
                                assert(m2.store.schemes[i] == m.store.schemes[i]);
                            } else {
                                assert(m2.store.schemes[i].1 == default_scheme());
                            }
                        }
                    }
                },
                DialogV::NewExtension(buf) => {
                    if extension_name_ok(m, buf) {
                        let k = m.open_scheme.unwrap();
                        assert forall|i: int| 0 <= i < m2.store.schemes.len() implies (
                        #[trigger] m2.store.schemes[i].1).extensions.len() <= ext_capacity() by {
                            if i != k {
                                assert(m2.store.schemes[i] == m.store.schemes[i]);
                            }
                        }
                    }
                },
                _ => {},
            }
        },
        InputEvent::Delete => {
            match m.dialog {
                DialogV::PickScheme(c) => {
                    if 0 <= c < m.store.schemes.len() {
                        assert forall|i: int| 0 <= i < m2.store.schemes.len() implies (
                        #[trigger] m2.store.schemes[i].1).extensions.len() <= ext_capacity() by {
                            if i < c {
                                assert(m2.store.schemes[i] == m.store.schemes[i]);
                            } else {
                                assert(m2.store.schemes[i] == m.store.schemes[i + 1]);
                            }
                        }
                    }
                },
                DialogV::Closed => {
                    match m.open_scheme {
                        Some(k) => {
                            if m.content_loc >= 18 {
                                assert forall|i: int| 0 <= i < m2.store.schemes.len() implies (
                                #[trigger] m2.store.schemes[i].1).extensions.len()
                                    <= ext_capacity() by {
                                    if i != k {
                                        assert(m2.store.schemes[i] == m.store.schemes[i]);
                                    }
                                }
                            }
                        },
                        None => {},
                    }
                },
                _ => {},
            }
        },
        InputEvent::Left | InputEvent::Right => {
            match m.dialog {
                DialogV::EditingColour(f, t) => {
                    match m.open_scheme {
                        Some(k) => {
                            assert forall|i: int| 0 <= i < m2.store.schemes.len() implies (
                            #[trigger] m2.store.schemes[i].1).extensions.len()
                                <= ext_capacity() by {
                                if i != k {
                                    assert(m2.store.schemes[i] == m.store.schemes[i]);
                                } else {
                                    match t {
                                        TargetV::Slot(_) => {},
                                        TargetV::Extension(j) => {
                                            assert(m2.store.schemes[i].1.extensions.len()
                                                == m.store.schemes[i].1.extensions.len());
                                        },
                                    }
                                }
                            }
                        },
                        None => {},
                    }
                },
                _ => {},
            }
        },
        _ => {},
    }
}

/// Law: with a scheme open, the browse cursor wraps at both ends — Up
/// from the first row lands on the last of the `18 + extensions` rows,
/// and Down from the last row lands back on the first.
pub proof fn lemma_browse_cursor_wraps(m: AppV)
    requires
        wf(m),
        m.dialog is Closed,
        m.open_scheme is Some,
    ensures
        m.content_loc == 0 ==> step(m, InputEvent::Up).content_loc == rows(m) - 1,
        m.content_loc == rows(m) - 1 ==> step(m, InputEvent::Down).content_loc == 0,
{
}

/// Law: deleting the scheme under the picker cursor clears the open
/// reference, whichever scheme was open; closing the picker afterwards
/// leaves a session in which the operations that need an open scheme do
/// nothing, as [`lemma_no_open_scheme_no_ops`] states.
pub proof fn lemma_delete_scheme_clears_open(m: AppV, c: int)
    requires
        wf(m),
        m.dialog == DialogV::PickScheme(c),
        0 <= c < m.store.schemes.len(),
    ensures
        step(m, InputEvent::Delete).open_scheme is None,
        step(step(m, InputEvent::Delete), InputEvent::Esc).open_scheme is None,
        step(step(m, InputEvent::Delete), InputEvent::Esc).dialog is Closed,
{
}

/// Law: with no scheme open and no dialog up, every operation that needs
/// an open scheme — entering the editor, adding an extension, showing the
/// export line, moving the browse cursor, deleting under the cursor,
/// cycling a colour — leaves the session exactly as it is.
pub proof fn lemma_no_open_scheme_no_ops(m: AppV)
    requires
        m.open_scheme is None,
        m.dialog is Closed,
    ensures
        step(m, InputEvent::Enter) == m,
        step(m, InputEvent::StartNewExtension) == m,
        step(m, InputEvent::OpenExport) == m,
        step(m, InputEvent::Up) == m,
        step(m, InputEvent::Down) == m,
        step(m, InputEvent::Delete) == m,
        step(m, InputEvent::Left) == m,
        step(m, InputEvent::Right) == m,
{
}

/// The fixed slot shown on a browse row below 18, as executable code.
fn slot_of_row(row: usize) -> (k: SlotKind)
    requires
        row < 18,
    ensures
        k == row_slot(row as int),
{
    match row {
        0 => SlotKind::Normal,
        1 => SlotKind::File,
        2 => SlotKind::Directory,
        3 => SlotKind::Symlink,
        4 => SlotKind::Pipe,
        5 => SlotKind::Door,
        6 => SlotKind::Block,
        7 => SlotKind::Character,
        8 => SlotKind::OrphanedSymlink,
        9 => SlotKind::Socket,
        10 => SlotKind::SetUid,
        11 => SlotKind::SetGid,
        12 => SlotKind::StickyOtherWritable,
        13 => SlotKind::OtherWritable,
        14 => SlotKind::Sticky,
        15 => SlotKind::Executable,
        16 => SlotKind::Missing,
        _ => SlotKind::EndCode,
    }
}

/// The field above this one, as executable code.
fn field_up_exec(f: EditField) -> (r: EditField)
    ensures
        r == field_up(f),
{
    match f {
        EditField::Foreground => EditField::Effect,
        EditField::Background => EditField::Foreground,
        EditField::Effect => EditField::Background,
    }
}

/// The field below this one, as executable code.
fn field_down_exec(f: EditField) -> (r: EditField)
    ensures
        r == field_down(f),
{
    match f {
        EditField::Foreground => EditField::Background,
        EditField::Background => EditField::Effect,
        EditField::Effect => EditField::Foreground,
    }
}

/// Cycles the attribute bound to one field of an entry, as executable
/// code.
fn edited_entry_exec(e: ColourEntry, f: EditField, forward: bool) -> (r: ColourEntry)
    ensures
        r == edited_entry(e, f, forward),
{
    match f {
        EditField::Foreground => ColourEntry {
            fg: if forward {
                cycle_colour_forward(e.fg)
            } else {
                cycle_colour_backward(e.fg)
            },
            ..e
        },
        EditField::Background => ColourEntry {
            bg: if forward {
                cycle_colour_forward(e.bg)
            } else {
                cycle_colour_backward(e.bg)
            },
            ..e
        },
        EditField::Effect => ColourEntry {
            effects: if forward {
                cycle_effect_forward(e.effects)
            } else {
                cycle_effect_backward(e.effects)
            },
            ..e
        },
    }
}

/// Applies one Left or Right edit: cycles the attribute bound to the
/// edited field and writes the entry straight back into the open scheme.
fn apply_cycle(app: &mut App, forward: bool)
    requires
        wf(old(app)@),
    ensures
        final(app)@ == step_cycle(old(app)@, forward),
{
    match app.dialog_state {
        DialogState::EditingColour(f, t) => {
            if let Some(i) = app.open_scheme {
                let pair = &mut app.savefile.schemes[i];
                let e = match t {
                    EditTarget::Slot(k) => pair.1.get_slot(k),
                    EditTarget::Extension(j) => pair.1.get_extension_entry(j),
                };
                let e2 = edited_entry_exec(e, f, forward);
                match t {
                    EditTarget::Slot(k) => pair.1.set_slot(k, e2),
                    EditTarget::Extension(j) => pair.1.set_extension_entry(j, e2),
                }
                proof {
                    assert(app@ =~~= step_cycle(old(app)@, forward));
                }
            }
        },
        _ => {},
    }
}

impl App {
    /// Starts a session over a loaded store: nothing open, the browse
    /// cursor at the first row, no dialog — except that a most-recently-
    /// used scheme recorded in the store is opened again when it still
    /// exists.
    pub fn new(savefile: SaveFile) -> (r: App)
        requires
            forall|i: int|
                0 <= i < savefile@.schemes.len() ==> (
                #[trigger] savefile@.schemes[i].1).extensions.len() <= ext_capacity(),
        ensures
            r@.store == savefile@,
            r@.exit == false,
            r@.content_loc == 0,
            r@.dialog is Closed,
            match r@.open_scheme {
                Some(i) => 0 <= i < savefile@.schemes.len() && savefile@.schemes[i].0
                    == savefile@.most_recent && savefile@.most_recent.len() > 0,
                None => savefile@.most_recent.len() == 0 || !contains_name(
                    savefile@.schemes,
                    savefile@.most_recent,
                ),
            },
            wf(r@),
    {
        let name = savefile.most_recent.clone();
        let open = if name.as_str().unicode_len() > 0 {
            savefile.find_scheme(&name)
        } else {
            None
        };
        App {
            exit: false,
            savefile,
            open_scheme: open,
            content_loc: 0,
            dialog_state: DialogState::Closed,
        }
    }
}

/// Processes one input event: the session steps to `step(old(app)@, ev)`
/// and stays well formed, and the result says whether the caller must
/// persist the store now.
pub fn handle_key_event(app: &mut App, ev: InputEvent) -> (save: bool)
    requires
        wf(old(app)@),
    ensures
        final(app)@ == step(old(app)@, ev),
        save == step_saves(old(app)@, ev),
        wf(final(app)@),
{
    let mut save = false;
    match ev {
        InputEvent::OpenPicker => {
            let c = match app.open_scheme {
                Some(i) => i,
                None => 0,
            };
            app.dialog_state = DialogState::PickScheme(c);
            proof {
                assert(app@ =~~= step(old(app)@, ev));
            }
        },
        InputEvent::StartNewScheme => {
            app.dialog_state = DialogState::NewScheme(String::new());
            proof {
                assert(app@ =~~= step(old(app)@, ev));
            }
        },
        InputEvent::StartNewExtension => {
            if app.open_scheme.is_some() {
                app.dialog_state = DialogState::NewExtension(String::new());
            }
            proof {
                assert(app@ =~~= step(old(app)@, ev));
            }
        },
        InputEvent::OpenExport => {
            if app.open_scheme.is_some() {
                app.dialog_state = DialogState::Export;
            }
            proof {
                assert(app@ =~~= step(old(app)@, ev));
            }
        },
        InputEvent::Quit => {
            app.exit = true;
            if let Some(i) = app.open_scheme {
                app.savefile.most_recent = app.savefile.schemes[i].0.clone();
            }
            save = true;
            proof {
                assert(app@ =~~= step(old(app)@, ev));
            }
        },
        InputEvent::Up => {
            match app.dialog_state {
                DialogState::PickScheme(c) => {
                    if c > 0 {
                        app.dialog_state = DialogState::PickScheme(c - 1);
                    }
                },
                DialogState::EditingColour(f, t) => {
                    app.dialog_state = DialogState::EditingColour(field_up_exec(f), t);
                },
                DialogState::Closed => {
                    if let Some(i) = app.open_scheme {
                        let ext_len = app.savefile.schemes[i].1.extensions.len();
                        if app.content_loc == 0 {
                            app.content_loc = 17 + ext_len;
                        } else {
                            app.content_loc -= 1;
                        }
                    }
                },
                _ => {},
            }
            proof {
                assert(app@ =~~= step(old(app)@, ev));
            }
        },
        InputEvent::Down => {
            match app.dialog_state {
                DialogState::PickScheme(c) => {
                    let len = app.savefile.schemes.len();
                    proof {
                        assert(c == 0 || (c as int) < app@.store.schemes.len());
                        assert(app@.store.schemes.len() == app.savefile.schemes@.len());
                    }
                    if c + 1 < len {
                        app.dialog_state = DialogState::PickScheme(c + 1);
                    }
                },
                DialogState::EditingColour(f, t) => {
                    app.dialog_state = DialogState::EditingColour(field_down_exec(f), t);
                },
                DialogState::Closed => {
                    if let Some(i) = app.open_scheme {
                        let ext_len = app.savefile.schemes[i].1.extensions.len();
                        if app.content_loc + 1 >= 18 + ext_len {
                            app.content_loc = 0;
                        } else {
                            app.content_loc += 1;
                        }
                    }
                },
                _ => {},
            }
            proof {
                assert(app@ =~~= step(old(app)@, ev));
            }
        },
        InputEvent::Left => {
            apply_cycle(app, false);
        },
        InputEvent::Right => {
            apply_cycle(app, true);
        },
        InputEvent::Esc => {
            match app.dialog_state {
                DialogState::Closed => {},
                _ => {
                    app.dialog_state = DialogState::Closed;
                },
            }
            proof {
                assert(app@ =~~= step(old(app)@, ev));
            }
        },
        InputEvent::Enter => {
            match app.dialog_state {
                DialogState::Closed => {
                    if app.open_scheme.is_some() {
                        let t = if app.content_loc < 18 {
                            EditTarget::Slot(slot_of_row(app.content_loc))
                        } else {
                            EditTarget::Extension(app.content_loc - 18)
                        };
                        app.dialog_state = DialogState::EditingColour(EditField::Foreground, t);
                    }
                },
                DialogState::PickScheme(c) => {
                    if c < app.savefile.schemes.len() {
                        app.open_scheme = Some(c);
                        app.content_loc = 0;
                        app.dialog_state = DialogState::Closed;
                    }
                },
                DialogState::NewScheme(ref s) => {
                    let buf = s.clone();
                    let created = app.savefile.create_scheme(buf);
                    if created {
                        proof {
                            assert(app.savefile@.schemes.len() == old(app)@.store.schemes.len()
                                + 1);
                            assert(app.savefile@.schemes.len() == app.savefile.schemes@.len());
                        }
                        app.open_scheme = Some(app.savefile.schemes.len() - 1);
                        app.content_loc = 0;
                        app.dialog_state = DialogState::Closed;
                    }
                    save = created;
                },
                DialogState::NewExtension(ref s) => {
                    let buf = s.clone();
                    if let Some(i) = app.open_scheme {
                        if app.savefile.schemes[i].1.extensions.len() < usize::MAX - 18 {
                            let added = app.savefile.add_extension(i, buf);
                            if added {
                                app.dialog_state = DialogState::Closed;
                            }
                        }
                    }
                },
                _ => {},
            }
            proof {
                assert(app@ =~~= step(old(app)@, ev));
            }
        },
        InputEvent::Backspace => {
            match &mut app.dialog_state {
                DialogState::NewScheme(s) => {
                    s.pop();
                },
                DialogState::NewExtension(s) => {
                    s.pop();
                },
                _ => {},
            }
            proof {
                assert(app@ =~~= step(old(app)@, ev));
            }
        },
        InputEvent::Delete => {
            match app.dialog_state {
                DialogState::PickScheme(c) => {
                    if c < app.savefile.schemes.len() {
                        app.savefile.delete_scheme(c);
                        app.open_scheme = None;
                        app.content_loc = 0;
                        let len2 = app.savefile.schemes.len();
                        let c2 = if c < len2 {
                            c
                        } else if len2 > 0 {
                            len2 - 1
                        } else {
                            0
                        };
                        app.dialog_state = DialogState::PickScheme(c2);
                        save = true;
                    }
                },
                DialogState::Closed => {
                    if let Some(i) = app.open_scheme {
                        if app.content_loc >= 18 {
                            let j = app.content_loc - 18;
                            let pair = &mut app.savefile.schemes[i];
                            pair.1.remove_extension(j);
                            let ext_len2 = app.savefile.schemes[i].1.extensions.len();
                            if app.content_loc >= 18 + ext_len2 {
                                app.content_loc = 0;
                            }
                        }
                    }
                },
                _ => {},
            }
            proof {
                assert(app@ =~~= step(old(app)@, ev));
            }
        },
        InputEvent::Char(c) => {
            match &mut app.dialog_state {
                DialogState::NewScheme(s) => {
                    s.push(c);
                },
                DialogState::NewExtension(s) => {
                    s.push(c);
                },
                _ => {},
            }
            proof {
                assert(app@ =~~= step(old(app)@, ev));
            }
        },
    }
    proof {
        lemma_step_preserves_wf(old(app)@, ev);
    }
    save
}

} // verus!
