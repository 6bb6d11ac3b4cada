//! The chewing composition engine, as the session sees it: key strokes go in,
//! pre-edit text, a cursor and candidate lists come out.

use chewing::editor::{BasicEditor, Editor, EditorError};
use chewing::input::keycode::Keycode;
use chewing::input::keymap::{map_ascii, QWERTY_MAP};
use chewing::input::keysym::Keysym;
use chewing::input::KeyboardEvent;
use vstd::prelude::*;

verus! {

#[verifier::external_type_specification]
#[verifier::external_body]
pub struct ExEditor(Editor);

#[verifier::external_type_specification]
#[verifier::external_body]
pub struct ExEditorError(EditorError);

#[verifier::external_type_specification]
#[verifier::external_body]
pub struct ExKeyboardEvent(KeyboardEvent);

/// chewing's `keycode::KEY_BACKSPACE` and `keysym::SYM_BACKSPACE`.
pub const KEY_BACKSPACE: u8 = 22;
pub const SYM_BACKSPACE: u32 = 0xff08;
/// chewing's `keycode::KEY_SPACE` and `keysym::SYM_SPACE`.
pub const KEY_SPACE: u8 = 65;
pub const SYM_SPACE: u32 = 0x20;
/// chewing's `keycode::KEY_ENTER` and `keysym::SYM_RETURN`.
pub const KEY_ENTER: u8 = 36;
pub const SYM_RETURN: u32 = 0xff0d;
/// chewing's `keycode::KEY_ESC` and `keysym::SYM_ESC`.
pub const KEY_ESC: u8 = 9;
pub const SYM_ESC: u32 = 0xff1b;
/// chewing's `keycode::KEY_DELETE` and `keysym::SYM_DELETE`.
pub const KEY_DELETE: u8 = 119;
pub const SYM_DELETE: u32 = 0xffff;
/// chewing's `keycode::KEY_LEFT` and `keysym::SYM_LEFT`.
pub const KEY_LEFT: u8 = 113;
pub const SYM_LEFT: u32 = 0xff51;
/// chewing's `keycode::KEY_RIGHT` and `keysym::SYM_RIGHT`.
pub const KEY_RIGHT: u8 = 114;
pub const SYM_RIGHT: u32 = 0xff53;
/// chewing's `keycode::KEY_UP` and `keysym::SYM_UP`.
pub const KEY_UP: u8 = 111;
pub const SYM_UP: u32 = 0xff52;
/// chewing's `keycode::KEY_DOWN` and `keysym::SYM_DOWN`.
pub const KEY_DOWN: u8 = 116;
pub const SYM_DOWN: u32 = 0xff54;
/// chewing's `keycode::KEY_TAB` and `keysym::SYM_TAB`.
pub const KEY_TAB: u8 = 23;
pub const SYM_TAB: u32 = 0xff09;

/// The control keys the session sends: (keycode, key symbol, shift). Space is
/// the one sent with shift, to toggle full-width input.
pub open spec fn control_key(code: u8, sym: u32, shift: bool) -> bool {
    ||| code == KEY_BACKSPACE && sym == SYM_BACKSPACE && !shift
    ||| code == KEY_SPACE && sym == SYM_SPACE
    ||| code == KEY_ENTER && sym == SYM_RETURN && !shift
    ||| code == KEY_ESC && sym == SYM_ESC && !shift
    ||| code == KEY_DELETE && sym == SYM_DELETE && !shift
    ||| code == KEY_LEFT && sym == SYM_LEFT && !shift
    ||| code == KEY_RIGHT && sym == SYM_RIGHT && !shift
    ||| code == KEY_UP && sym == SYM_UP && !shift
    ||| code == KEY_DOWN && sym == SYM_DOWN && !shift
    ||| code == KEY_TAB && sym == SYM_TAB && !shift
}

/// What a key stroke is, in plain values.
#[derive(Clone, Copy, Debug, PartialEq, Eq, Structural)]
pub enum StrokeView {
    /// A control key: keycode, key symbol, shift.
    Control { code: u8, sym: u32, shift: bool },
    /// The QWERTY key that types this ASCII byte.
    Ascii(u8),
}

/// A key event the engine accepts from this library: one of the control keys,
/// or the QWERTY key of an ASCII character. Only the constructors below make
/// one, so nothing else reaches the engine.
pub struct KeyStroke {
    event: KeyboardEvent,
    what: StrokeView,
}

impl View for KeyStroke {
    type V = StrokeView;

    closed spec fn view(&self) -> StrokeView {
        self.what
    }
}

impl KeyStroke {
    /// A control key.
    pub fn control(code: u8, sym: u32, shift: bool) -> (r: KeyStroke)
        requires
            control_key(code, sym, shift),
        ensures
            r@ == (StrokeView::Control { code, sym, shift }),
    {
        KeyStroke {
            event: key_event(code, sym, shift),
            what: StrokeView::Control { code, sym, shift },
        }
    }

    /// What the stroke is, in plain values.
    pub fn kind(&self) -> (r: StrokeView)
        ensures
            r == self@,
    {
        self.what
    }

    /// The key that types the ASCII character `c`.
    pub fn ascii(c: u8) -> (r: KeyStroke)
        ensures
            r@ == StrokeView::Ascii(c),
    {
        KeyStroke { event: ascii_event(c), what: StrokeView::Ascii(c) }
    }
}

/// One input handed to the engine.
#[derive(Clone, Copy, Debug, PartialEq, Eq, Structural)]
pub enum EngineInput {
    Stroke(StrokeView),
    /// A selection of the candidate at this index.
    Select(usize),
}

/// The composition engine with the record of every input handed to it. Only
/// the methods that make the engine call extend the record.
pub struct Engine {
    editor: Editor,
    log: Ghost<Seq<EngineInput>>,
}

impl Engine {
    /// The inputs handed to the engine so far, oldest first.
    pub closed spec fn inputs(&self) -> Seq<EngineInput> {
        self.log@
    }

    pub fn new(editor: Editor) -> (r: Engine)
        ensures
            r.inputs() == Seq::<EngineInput>::empty(),
    {
        Engine { editor, log: Ghost(Seq::empty()) }
    }

    /// Feeds one key stroke to the engine.
    pub fn feed(&mut self, stroke: KeyStroke)
        ensures
            final(self).inputs() == old(self).inputs().push(EngineInput::Stroke(stroke@)),
    {
        let ghost what = stroke@;
        feed(&mut self.editor, stroke);
        self.log = Ghost(self.log@.push(EngineInput::Stroke(what)));
    }

    /// Asks the engine to select its candidate `n`; says whether it answered
    /// without error. An index past `usize::MAX / 2` is not handed over.
    pub fn select(&mut self, n: usize) -> (ok: bool)
        ensures
            n <= usize::MAX / 2 ==> final(self).inputs() == old(self).inputs().push(
                EngineInput::Select(n),
            ),
            n > usize::MAX / 2 ==> *final(self) == *old(self) && !ok,
    {
        if n <= usize::MAX / 2 {
            let ok = self.editor.select(n).is_ok();
            self.log = Ghost(self.log@.push(EngineInput::Select(n)));
            ok
        } else {
            false
        }
    }

    /// The converted text of the composition.
    pub fn display(&self) -> String {
        self.editor.display()
    }

    /// The phonetic fragment not converted yet.
    pub fn pending(&self) -> String {
        self.editor.syllable_buffer_display()
    }

    /// The cursor in the composition, in symbols.
    pub fn cursor(&self) -> usize {
        self.editor.cursor()
    }

    /// Whether the engine is still selecting a candidate.
    pub fn is_selecting(&self) -> bool {
        self.editor.is_selecting()
    }

    /// The engine's candidates from its current page on, none when it offers
    /// no selection.
    pub fn candidates(&self) -> Vec<String> {
        match self.editor.paginated_candidates() {
            Ok(v) => v,
            Err(_) => Vec::new(),
        }
    }
}

/// Relies on chewing's `Editor::display`: the converted text of the
/// composition buffer, which depends on the engine's dictionaries and history.
pub assume_specification[ Editor::display ](editor: &Editor) -> String;

/// Relies on chewing's `Editor::syllable_buffer_display`: the phonetic
/// fragment that is not converted yet.
pub assume_specification[ Editor::syllable_buffer_display ](editor: &Editor) -> String;

/// Relies on chewing's `Editor::cursor`: the cursor position in the
/// composition buffer, counted in symbols.
pub assume_specification[ Editor::cursor ](editor: &Editor) -> usize;

/// Relies on chewing's `Editor::is_selecting`: whether the editor is in its
/// candidate selection state.
pub assume_specification[ Editor::is_selecting ](editor: &Editor) -> bool;

/// Relies on chewing's `Editor::paginated_candidates`: the candidates of the
/// current selection from the engine's current page on, or an error when the
/// editor is not selecting.
pub assume_specification[ Editor::paginated_candidates ](editor: &Editor) -> Result<
    Vec<String>,
    EditorError,
>;

/// Relies on chewing's `Editor::select`: picks candidate `n` counted from the
/// engine's current page, that is entry `n` of `paginated_candidates`. It fails
/// when the editor is not selecting or when a phrase selection has nothing
/// there; a symbol menu absorbs a missing entry, answers `Ok` and stays in
/// selection. The engine adds its page offset to `n`, hence the bound.
pub assume_specification[ Editor::select ](editor: &mut Editor, n: usize) -> Result<
    (),
    EditorError,
>
    requires
        n <= usize::MAX / 2,
;

/// Relies on chewing's `KeyboardEventBuilder`: a key event with keycode
/// `code`, key symbol `sym` and the shift modifier when `shift` holds.
#[verifier::external_body]
fn key_event(code: u8, sym: u32, shift: bool) -> KeyboardEvent
    requires
        control_key(code, sym, shift),
{
    KeyboardEvent::builder().code(Keycode(code)).ksym(Keysym(sym)).shift_if(shift).build()
}

/// Relies on chewing's `keymap::map_ascii` over the QWERTY table: the key
/// event that types the ASCII character `c` (an empty event for a byte the
/// table lacks).
#[verifier::external_body]
fn ascii_event(c: u8) -> KeyboardEvent {
    map_ascii(&QWERTY_MAP, c)
}

/// Relies on chewing's `BasicEditor::process_keyevent` for `Editor`: feeds one
/// key stroke to the engine, which updates its composition.
#[verifier::external_body]
fn feed(editor: &mut Editor, stroke: KeyStroke) {
    editor.process_keyevent(stroke.event);
}

} // verus!
