//! The session state machine: it classifies host events, decides what the
//! composition engine is asked to do, and produces the actions for the host.

use crate::engine::{
    Engine, EngineInput, KeyStroke, StrokeView, KEY_BACKSPACE, KEY_DELETE, KEY_DOWN, KEY_ENTER, KEY_ESC, KEY_LEFT, KEY_RIGHT,
    KEY_SPACE, KEY_TAB, KEY_UP, SYM_BACKSPACE, SYM_DELETE, SYM_DOWN, SYM_ESC, SYM_LEFT, SYM_RETURN,
    SYM_RIGHT, SYM_SPACE, SYM_TAB, SYM_UP,
};
use crate::paginator::{PagerView, Paginator};
use crate::transcode::{byte_offset, byte_offset_of};
use chewing::editor::Editor;
use vstd::prelude::*;
use vstd::string::*;

verus! {

/// Candidates on one page of the popup.
pub const PAGE_CAPACITY: usize = 10;

/// Pages shown side by side in the popup.
pub const WINDOW_PAGES: usize = 4;

/// The session's mode.
#[derive(Clone, Copy, Debug, PartialEq, Eq, Structural)]
pub enum Mode {
    /// No composition: keys go to the host unless they start one.
    PassThrough,
    /// Composing, no popup.
    PreEdit,
    /// The candidate popup is open.
    CandidateSelect,
    /// A pre-edit update was sent; the host has not acknowledged it yet.
    AwaitingAck,
}

/// A key as the host reports it.
#[derive(Clone, Copy, Debug, PartialEq, Eq, Structural)]
pub enum Key {
    Backspace,
    Space,
    Enter,
    Escape,
    Delete,
    ArrowLeft,
    ArrowRight,
    ArrowUp,
    ArrowDown,
    Tab,
    Shift,
    /// A key whose logical value is one character.
    Character(char),
    Other,
}

/// A key operation of the composition engine.
#[derive(Clone, Copy, Debug, PartialEq, Eq, Structural)]
pub enum EngineKey {
    Backspace,
    Space,
    ShiftSpace,
    Enter,
    Escape,
    Delete,
    Left,
    Right,
    Up,
    Down,
    Tab,
    /// Types an ASCII character.
    Ascii(u8),
}

/// An instruction for the host surface.
#[derive(Clone, Debug, PartialEq, Eq)]
pub enum Action {
    /// Replace the pre-edit text; the cursor is given in bytes.
    SetPreedit { text: String, cursor_begin: usize, cursor_end: usize },
    /// Apply the buffered pre-edit or commit update.
    Commit,
    /// Insert text into the host's field.
    CommitString(String),
    ShowPopup,
    HidePopup,
    /// Hand the raw key event back to the host unchanged.
    ForwardKey,
    /// Hand the raw modifier state back to the host unchanged.
    ForwardModifiers,
}

/// What a key press asks of the engine before the session can answer it.
#[derive(Clone, Copy, Debug, PartialEq, Eq, Structural)]
pub enum Plan {
    /// Nothing to do.
    Ignore,
    /// Forward the raw key to the host.
    Forward,
    /// Feed the key to the engine, then show the new pre-edit.
    Edit(EngineKey),
    /// Feed the character to the engine; show the pre-edit if one started,
    /// else forward the raw key.
    TryCompose(u8),
    /// Feed the key to the engine and tell the host nothing.
    Silent(EngineKey),
    /// Commit the whole pre-edit and clear the composition.
    CommitAll,
    /// Ask the engine for candidates and open the popup.
    OpenPopup,
    /// Select the candidate at this flat index.
    Choose(usize),
    /// Ask the engine for its next batch of candidates.
    NextBatch,
    /// Leave candidate selection.
    Cancel,
}

/// A host event.
#[derive(Clone, Copy, Debug, PartialEq, Eq, Structural)]
pub enum Event {
    Activate,
    Deactivate,
    /// A key press (or repeat): the logical key, the last character of the
    /// text it produces, and whether shift is held.
    KeyPressed { key: Key, text: Option<char>, shift: bool },
    KeyReleased { key: Key },
    Modifiers,
    /// The host applied the last update.
    Done,
    /// The pointer is over position `index` of page `page` of the popup's window.
    Hover { page: usize, index: usize },
    /// The popup was clicked at the position under the cursor.
    Click,
}

/// Byte offset of code point `cp` in `text`, with `cp` clamped to the end.
pub open spec fn cursor_bytes(text: Seq<char>, cp: nat) -> nat {
    byte_offset_of(
        text,
        if cp <= text.len() {
            cp as int
        } else {
            text.len() as int
        },
    )
}

/// Slot of the candidate picked by a digit key: "1" is the first, "0" the tenth.
pub open spec fn digit_slot(c: char) -> Option<nat> {
    let v = c as u32;
    if 0x31 <= v && v <= 0x39 {
        Some((v - 0x31) as nat)
    } else if v == 0x30 {
        Some(9)
    } else {
        None
    }
}

/// The ASCII character carried by the key's text, if any.
pub open spec fn ascii_text(text: Option<char>) -> Option<u8> {
    match text {
        Some(c) => if (c as u32) < 128 {
            Some((c as u32) as u8)
        } else {
            None
        },
        None => None,
    }
}

/// What a key does in pass-through mode.
pub open spec fn passthrough_plan(forced: bool, key: Key, text: Option<char>, shift: bool) -> Plan {
    if key is Shift {
        Plan::Ignore
    } else if forced {
        Plan::Forward
    } else if key is Space {
        if shift {
            Plan::Silent(EngineKey::ShiftSpace)
        } else {
            Plan::Forward
        }
    } else {
        match ascii_text(text) {
            Some(b) => Plan::TryCompose(b),
            None => Plan::Forward,
        }
    }
}

/// What a key does while composing without the popup.
pub open spec fn preedit_plan(key: Key, text: Option<char>, shift: bool) -> Plan {
    match key {
        Key::Backspace => Plan::Edit(EngineKey::Backspace),
        Key::Space => if shift {
            Plan::Edit(EngineKey::ShiftSpace)
        } else {
            Plan::Edit(EngineKey::Space)
        },
        Key::Enter => Plan::CommitAll,
        Key::Escape => Plan::Edit(EngineKey::Escape),
        Key::Delete => Plan::Edit(EngineKey::Delete),
        Key::ArrowLeft => Plan::Edit(EngineKey::Left),
        Key::ArrowRight => Plan::Edit(EngineKey::Right),
        Key::ArrowUp => Plan::Edit(EngineKey::Up),
        Key::ArrowDown => Plan::OpenPopup,
        Key::Tab => Plan::Edit(EngineKey::Tab),
        _ => match ascii_text(text) {
            Some(b) => Plan::Edit(EngineKey::Ascii(b)),
            None => Plan::Ignore,
        },
    }
}

/// What a key does while the popup is open.
pub open spec fn popup_plan(pv: PagerView, key: Key) -> Plan {
    match key {
        Key::Character(c) => match digit_slot(c) {
            Some(s) => if pv.page * pv.capacity + s <= usize::MAX {
                Plan::Choose((pv.page * pv.capacity + s) as usize)
            } else {
                Plan::Ignore
            },
            None => Plan::Ignore,
        },
        Key::ArrowDown => if pv.at_page_end() {
            Plan::NextBatch
        } else {
            Plan::Ignore
        },
        Key::Enter => Plan::Choose(pv.flat_index() as usize),
        Key::Escape => Plan::Cancel,
        _ => Plan::Ignore,
    }
}

/// How a key moves the popup's cursor.
pub open spec fn popup_cursor(pv: PagerView, key: Key) -> PagerView {
    match key {
        Key::ArrowDown => pv.moved_down(),
        Key::ArrowUp => pv.moved_up(),
        Key::ArrowLeft => pv.moved_left(),
        Key::ArrowRight => pv.moved_right(),
        _ => pv,
    }
}

/// What a key press is planned to do in the state `c`.
pub open spec fn key_plan(c: Controller, key: Key, text: Option<char>, shift: bool) -> Plan {
    match c.mode {
        Mode::AwaitingAck => Plan::Ignore,
        Mode::PassThrough => passthrough_plan(c.forced_passthrough, key, text, shift),
        Mode::PreEdit => preedit_plan(key, text, shift),
        Mode::CandidateSelect => popup_plan(c.pager->0@, key),
    }
}

/// The state after the host's acknowledgment.
pub open spec fn done_next(c: Controller) -> Controller {
    if c.mode is AwaitingAck {
        Controller {
            mode: if c.popup {
                Mode::CandidateSelect
            } else if c.preedit@.len() > 0 {
                Mode::PreEdit
            } else {
                Mode::PassThrough
            },
            popup: false,
            ..c
        }
    } else {
        c
    }
}

/// The actions for the host's acknowledgment: the popup is shown when it was
/// planned.
pub open spec fn done_actions(c: Controller) -> Seq<Action> {
    if c.mode is AwaitingAck && c.popup {
        seq![Action::ShowPopup]
    } else {
        Seq::<Action>::empty()
    }
}

/// The release of an armed shift in pass-through mode.
pub open spec fn toggles_passthrough(c: Controller, key: Key) -> bool {
    c.mode is PassThrough && key is Shift && c.shift_armed
}

/// The state after a key release.
pub open spec fn released_next(c: Controller, key: Key) -> Controller {
    if toggles_passthrough(c, key) {
        Controller { shift_armed: false, forced_passthrough: !c.forced_passthrough, ..c }
    } else {
        c
    }
}

/// The actions for a key release: forwarded in pass-through mode unless it
/// toggles forced pass-through.
pub open spec fn released_actions(c: Controller, key: Key) -> Seq<Action> {
    if c.mode is PassThrough && !toggles_passthrough(c, key) {
        seq![Action::ForwardKey]
    } else {
        Seq::<Action>::empty()
    }
}

/// What holds after a planned key press was carried out, whatever the engine
/// answered: `old` is the state before the press, `new` the state after.
pub open spec fn plan_outcome(plan: Plan, old: Controller, new: Controller, r: Seq<Action>) -> bool {
    match plan {
        Plan::Ignore => r.len() == 0 && new.mode == old.mode,
        Plan::Forward => r == seq![Action::ForwardKey] && new.mode == old.mode,
        Plan::Silent(_) => r.len() == 0 && new.mode == old.mode,
        Plan::Edit(_) => new.mode is AwaitingAck && !new.popup && r == new.preedit_update(),
        Plan::TryCompose(_) => (new.mode == old.mode && r == seq![Action::ForwardKey])
            || (new.mode is AwaitingAck && !new.popup && r == new.preedit_update()),
        Plan::CommitAll => {
            &&& new.mode is PassThrough
            &&& new.preedit@.len() == 0
            &&& r.len() == 2
            &&& r[0] is CommitString
            &&& r[1] == Action::Commit
        },
        Plan::OpenPopup => (new == old && r.len() == 0) || (new.mode is AwaitingAck && new.popup
            && r == new.preedit_update()),
        Plan::Choose(_) => (new.mode == old.mode && new.preedit == old.preedit
            && new.cursor == old.cursor && r.len() == 0)
            || (new.mode is AwaitingAck && !new.popup && new.pager is None
            && r == new.preedit_update().push(Action::HidePopup)),
        Plan::NextBatch => r.len() == 0 && new.mode == old.mode,
        Plan::Cancel => new.mode is PreEdit && new.pager is None
            && r == new.preedit_update().push(Action::HidePopup),
    }
}

/// From `AwaitingAck` with the popup planned, the acknowledgment opens the
/// popup with exactly one `ShowPopup`, and a second acknowledgment shows
/// nothing more.
pub proof fn lemma_popup_shown_once(c: Controller)
    requires
        c.wf(),
        c.mode is AwaitingAck,
        c.popup,
    ensures
        done_next(c).mode is CandidateSelect,
        done_actions(c) == seq![Action::ShowPopup],
        done_actions(done_next(c)).len() == 0,
        done_next(done_next(c)) == done_next(c),
{
}

/// Candidate selection is entered only from a planned popup, and a popup is
/// planned only with a non-empty candidate list: every well-formed state in
/// `CandidateSelect` holds a paginator with at least one candidate.
pub proof fn lemma_select_mode_has_candidates(c: Controller)
    requires
        c.wf(),
        c.mode is CandidateSelect || c.popup,
    ensures
        c.pager matches Some(p) && p@.len() >= 1,
{
}

fn slot_of(c: char) -> (r: Option<usize>)
    ensures
        match digit_slot(c) {
            Some(s) => r == Some(s as usize),
            None => r is None,
        },
{
    let v = c as u32;
    if 0x31 <= v && v <= 0x39 {
        Some((v - 0x31) as usize)
    } else if v == 0x30 {
        Some(9)
    } else {
        None
    }
}

fn ascii_of(text: Option<char>) -> (r: Option<u8>)
    ensures
        r == ascii_text(text),
{
    match text {
        Some(c) => {
            let v = c as u32;
            if v < 128 {
                Some(v as u8)
            } else {
                None
            }
        },
        None => None,
    }
}

/// The session's own state; the engine is held beside it by [`Session`].
pub struct Controller {
    pub mode: Mode,
    /// The popup is to open when the host acknowledges.
    pub popup: bool,
    /// Shift went down in pass-through mode with no other key since.
    pub shift_armed: bool,
    /// Composition is switched off: every key is forwarded.
    pub forced_passthrough: bool,
    /// The last pre-edit text sent to the host.
    pub preedit: String,
    /// Its cursor, in bytes.
    pub cursor: usize,
    /// The candidate pages, while a popup is open or about to open.
    pub pager: Option<Paginator>,
}

impl Controller {
    pub open spec fn wf(&self) -> bool {
        &&& (self.mode is CandidateSelect || self.popup) <==> self.pager is Some
        &&& self.popup ==> self.mode is AwaitingAck
        &&& self.pager matches Some(p) ==> {
            &&& p.wf()
            &&& p@.capacity == PAGE_CAPACITY
            &&& p@.max_pages == WINDOW_PAGES
        }
    }

    /// The update that shows the current pre-edit: the text with its cursor,
    /// then the commit that applies it.
    pub open spec fn preedit_update(&self) -> Seq<Action> {
        seq![
            Action::SetPreedit {
                text: self.preedit,
                cursor_begin: self.cursor,
                cursor_end: self.cursor,
            },
            Action::Commit,
        ]
    }

    /// `self` shows `text` with its cursor at code point `cp`.
    pub open spec fn shows(&self, text: String, cp: nat) -> bool {
        self.preedit == text && self.cursor == cursor_bytes(text@, cp)
    }

    /// The state at startup: pass-through, nothing composed.
    pub fn new() -> (r: Controller)
        ensures
            r.wf(),
            r.mode is PassThrough,
            !r.popup,
            !r.shift_armed,
            !r.forced_passthrough,
            r.preedit@ == Seq::<char>::empty(),
            r.cursor == 0,
            r.pager is None,
    {
        Controller {
            mode: Mode::PassThrough,
            popup: false,
            shift_armed: false,
            forced_passthrough: false,
            preedit: String::new(),
            cursor: 0,
            pager: None,
        }
    }

    /// `new` differs from `self` at most in the pre-edit text and cursor.
    pub open spec fn same_but_preedit(&self, new: Controller) -> bool {
        &&& new.mode == self.mode
        &&& new.popup == self.popup
        &&& new.shift_armed == self.shift_armed
        &&& new.forced_passthrough == self.forced_passthrough
        &&& new.pager == self.pager
    }

    /// Records `text` as the pre-edit with its cursor at code point `cp`
    /// (clamped to the end) and returns the update that shows it.
    fn record_preedit(&mut self, text: String, cp: usize) -> (r: Vec<Action>)
        ensures
            old(self).same_but_preedit(*final(self)),
            final(self).shows(text, cp as nat),
            r@ == final(self).preedit_update(),
    {
        let n = text.as_str().unicode_len();
        let at = if cp <= n {
            cp
        } else {
            n
        };
        let c = byte_offset(text.as_str(), at);
        let shown = text.clone();
        self.preedit = text;
        self.cursor = c;
        let mut r: Vec<Action> = Vec::new();
        r.push(Action::SetPreedit { text: shown, cursor_begin: c, cursor_end: c });
        r.push(Action::Commit);
        assert(r@ =~= self.preedit_update());
        r
    }

    /// The engine changed the composition: show its pre-edit `text`, cursor at
    /// code point `cp`, and wait for the host. The popup plan is left as it is.
    pub fn show_preedit(&mut self, text: String, cp: usize) -> (r: Vec<Action>)
        requires
            old(self).wf(),
            !(old(self).mode is CandidateSelect),
        ensures
            final(self).wf(),
            final(self).mode is AwaitingAck,
            final(self).popup == old(self).popup,
            final(self).pager == old(self).pager,
            final(self).shift_armed == old(self).shift_armed,
            final(self).forced_passthrough == old(self).forced_passthrough,
            final(self).shows(text, cp as nat),
            r@ == final(self).preedit_update(),
    {
        self.mode = Mode::AwaitingAck;
        self.record_preedit(text, cp)
    }

    /// A character was fed to the engine in pass-through mode and `text` is
    /// the pre-edit that followed. An empty one means that the engine took no
    /// composition from it: the raw key goes back to the host and nothing else
    /// changes.
    pub fn compose_or_forward(&mut self, text: String, cp: usize) -> (r: Vec<Action>)
        requires
            old(self).wf(),
            !(old(self).mode is CandidateSelect),
        ensures
            final(self).wf(),
            text@.len() == 0 ==> *final(self) == *old(self) && r@ == seq![Action::ForwardKey],
            text@.len() > 0 ==> {
                &&& final(self).mode is AwaitingAck
                &&& final(self).popup == old(self).popup
                &&& final(self).pager == old(self).pager
                &&& final(self).shift_armed == old(self).shift_armed
                &&& final(self).forced_passthrough == old(self).forced_passthrough
                &&& final(self).shows(text, cp as nat)
                &&& r@ == final(self).preedit_update()
            },
    {
        if text.as_str().unicode_len() == 0 {
            let mut r: Vec<Action> = Vec::new();
            r.push(Action::ForwardKey);
            assert(r@ =~= seq![Action::ForwardKey]);
            r
        } else {
            self.show_preedit(text, cp)
        }
    }

    /// Enter in pre-edit mode: `text` is committed whole and the session
    /// returns to pass-through with nothing composed.
    pub fn commit_all(&mut self, text: String) -> (r: Vec<Action>)
        requires
            old(self).wf(),
        ensures
            final(self).wf(),
            final(self).mode is PassThrough,
            !final(self).popup,
            final(self).pager is None,
            final(self).preedit@ == Seq::<char>::empty(),
            final(self).cursor == 0,
            final(self).shift_armed == old(self).shift_armed,
            final(self).forced_passthrough == old(self).forced_passthrough,
            r@ == seq![Action::CommitString(text), Action::Commit],
    {
        self.mode = Mode::PassThrough;
        self.popup = false;
        self.pager = None;
        self.preedit = String::new();
        self.cursor = 0;
        let mut r: Vec<Action> = Vec::new();
        r.push(Action::CommitString(text));
        r.push(Action::Commit);
        assert(r@ =~= seq![Action::CommitString(text), Action::Commit]);
        r
    }

    /// The engine was asked for candidates; `text` and `cp` are the pre-edit
    /// and cursor to show meanwhile. With candidates, the popup is planned to
    /// open on the first page once the host acknowledges. With none the open
    /// is rejected: nothing changes and nothing is sent.
    pub fn open_popup(&mut self, text: String, cp: usize, candidates: Vec<String>) -> (r: Vec<
        Action,
    >)
        requires
            old(self).wf(),
        ensures
            final(self).wf(),
            candidates@.len() == 0 ==> *final(self) == *old(self) && r@.len() == 0,
            candidates@.len() > 0 ==> {
                &&& final(self).mode is AwaitingAck
                &&& final(self).popup
                &&& (final(self).pager matches Some(p) && p@.items == candidates@ && p@.page == 0
                    && p@.index == 0)
                &&& final(self).shift_armed == old(self).shift_armed
                &&& final(self).forced_passthrough == old(self).forced_passthrough
                &&& final(self).shows(text, cp as nat)
                &&& r@ == final(self).preedit_update()
            },
    {
        let pager = Paginator::open(candidates, PAGE_CAPACITY, WINDOW_PAGES);
        if pager.is_none() {
            return Vec::new();
        }
        self.mode = Mode::AwaitingAck;
        self.popup = true;
        self.pager = pager;
        self.record_preedit(text, cp)
    }

    /// The engine answered a selection: when it `accepted`, the popup closes
    /// and the new pre-edit is shown; when it refused, nothing changes.
    pub fn chosen(&mut self, accepted: bool, text: String, cp: usize) -> (r: Vec<Action>)
        requires
            old(self).wf(),
        ensures
            final(self).wf(),
            !accepted ==> *final(self) == *old(self) && r@.len() == 0,
            accepted ==> {
                &&& final(self).mode is AwaitingAck
                &&& !final(self).popup
                &&& final(self).pager is None
                &&& final(self).shift_armed == old(self).shift_armed
                &&& final(self).forced_passthrough == old(self).forced_passthrough
                &&& final(self).shows(text, cp as nat)
                &&& r@ == final(self).preedit_update().push(Action::HidePopup)
            },
    {
        if !accepted {
            return Vec::new();
        }
        self.mode = Mode::AwaitingAck;
        self.popup = false;
        self.pager = None;
        let mut r = self.record_preedit(text, cp);
        r.push(Action::HidePopup);
        r
    }

    /// Candidate selection was cancelled: back to composing, popup hidden.
    pub fn cancelled(&mut self, text: String, cp: usize) -> (r: Vec<Action>)
        requires
            old(self).wf(),
        ensures
            final(self).wf(),
            final(self).mode is PreEdit,
            !final(self).popup,
            final(self).pager is None,
            final(self).shift_armed == old(self).shift_armed,
            final(self).forced_passthrough == old(self).forced_passthrough,
            final(self).shows(text, cp as nat),
            r@ == final(self).preedit_update().push(Action::HidePopup),
    {
        self.mode = Mode::PreEdit;
        self.popup = false;
        self.pager = None;
        let mut r = self.record_preedit(text, cp);
        r.push(Action::HidePopup);
        r
    }

    /// The engine's next batch of candidates arrived: the popup shows it from
    /// its first position. An empty batch changes nothing.
    pub fn refresh_candidates(&mut self, candidates: Vec<String>)
        requires
            old(self).wf(),
            old(self).mode is CandidateSelect,
        ensures
            final(self).wf(),
            candidates@.len() == 0 ==> *final(self) == *old(self),
            candidates@.len() > 0 ==> {
                &&& (final(self).pager matches Some(p) && p@.items == candidates@ && p@.page == 0
                    && p@.index == 0)
                &&& final(self).mode == old(self).mode
                &&& final(self).popup == old(self).popup
                &&& final(self).shift_armed == old(self).shift_armed
                &&& final(self).forced_passthrough == old(self).forced_passthrough
                &&& final(self).preedit == old(self).preedit
                &&& final(self).cursor == old(self).cursor
            },
    {
        let pager = Paginator::open(candidates, PAGE_CAPACITY, WINDOW_PAGES);
        if pager.is_some() {
            self.pager = pager;
        }
    }

    /// The host acknowledged the last update. From `AwaitingAck` the session
    /// opens the planned popup, or goes on composing, or returns to
    /// pass-through when nothing is composed; in other modes nothing happens.
    pub fn done(&mut self) -> (r: Vec<Action>)
        requires
            old(self).wf(),
        ensures
            final(self).wf(),
            *final(self) == done_next(*old(self)),
            r@ == done_actions(*old(self)),
    {
        let mut r: Vec<Action> = Vec::new();
        match self.mode {
            Mode::AwaitingAck => {
                if self.popup {
                    self.mode = Mode::CandidateSelect;
                    self.popup = false;
                    r.push(Action::ShowPopup);
                    assert(r@ =~= seq![Action::ShowPopup]);
                } else if self.preedit.as_str().unicode_len() > 0 {
                    self.mode = Mode::PreEdit;
                } else {
                    self.mode = Mode::PassThrough;
                }
            },
            _ => {},
        }
        r
    }

    /// A key went up. In pass-through mode, the release of an armed shift
    /// toggles forced pass-through; any other release is forwarded. In other
    /// modes releases are dropped.
    pub fn key_released(&mut self, key: Key) -> (r: Vec<Action>)
        requires
            old(self).wf(),
        ensures
            final(self).wf(),
            *final(self) == released_next(*old(self), key),
            r@ == released_actions(*old(self), key),
    {
        let mut r: Vec<Action> = Vec::new();
        if let Mode::PassThrough = self.mode {
            if matches!(key, Key::Shift) && self.shift_armed {
                self.shift_armed = false;
                self.forced_passthrough = !self.forced_passthrough;
            } else {
                r.push(Action::ForwardKey);
                assert(r@ =~= seq![Action::ForwardKey]);
            }
        }
        r
    }

    /// The host activated the input method.
    pub fn activate(&mut self)
        requires
            old(self).wf(),
        ensures
            final(self).wf(),
            *final(self) == (Controller {
                mode: Mode::PassThrough,
                popup: false,
                pager: None,
                ..*old(self)
            }),
    {
        self.mode = Mode::PassThrough;
        self.popup = false;
        self.pager = None;
    }

    /// The host deactivated the input method: back to pass-through, popup
    /// hidden.
    pub fn deactivate(&mut self) -> (r: Vec<Action>)
        requires
            old(self).wf(),
        ensures
            final(self).wf(),
            *final(self) == (Controller {
                mode: Mode::PassThrough,
                popup: false,
                pager: None,
                ..*old(self)
            }),
            r@ == seq![Action::HidePopup],
    {
        self.mode = Mode::PassThrough;
        self.popup = false;
        self.pager = None;
        let mut r: Vec<Action> = Vec::new();
        r.push(Action::HidePopup);
        assert(r@ =~= seq![Action::HidePopup]);
        r
    }

    /// Classifies a key press and plans it. Only the shift latch (in
    /// pass-through mode) and the popup's cursor (while it is open) change
    /// here; the engine's part is left to the caller.
    pub fn on_key(&mut self, key: Key, text: Option<char>, shift: bool) -> (plan: Plan)
        requires
            old(self).wf(),
        ensures
            final(self).wf(),
            plan == key_plan(*old(self), key, text, shift),
            !(old(self).mode is PassThrough) && !(old(self).mode is CandidateSelect) ==> *final(self)
                == *old(self),
            old(self).mode is PassThrough ==> *final(self) == (Controller {
                shift_armed: key is Shift,
                ..*old(self)
            }),
            old(self).mode is CandidateSelect ==> {
                &&& (final(self).pager matches Some(p) && p@ == popup_cursor(
                    old(self).pager->0@,
                    key,
                ))
                &&& final(self).mode == old(self).mode
                &&& final(self).popup == old(self).popup
                &&& final(self).shift_armed == old(self).shift_armed
                &&& final(self).forced_passthrough == old(self).forced_passthrough
                &&& final(self).preedit == old(self).preedit
                &&& final(self).cursor == old(self).cursor
            },
    {
        match self.mode {
            Mode::AwaitingAck => Plan::Ignore,
            Mode::PassThrough => {
                let is_shift = matches!(key, Key::Shift);
                self.shift_armed = is_shift;
                if is_shift {
                    Plan::Ignore
                } else if self.forced_passthrough {
                    Plan::Forward
                } else if matches!(key, Key::Space) {
                    if shift {
                        Plan::Silent(EngineKey::ShiftSpace)
                    } else {
                        Plan::Forward
                    }
                } else {
                    match ascii_of(text) {
                        Some(b) => Plan::TryCompose(b),
                        None => Plan::Forward,
                    }
                }
            },
            Mode::PreEdit => match key {
                Key::Backspace => Plan::Edit(EngineKey::Backspace),
                Key::Space => if shift {
                    Plan::Edit(EngineKey::ShiftSpace)
                } else {
                    Plan::Edit(EngineKey::Space)
                },
                Key::Enter => Plan::CommitAll,
                Key::Escape => Plan::Edit(EngineKey::Escape),
                Key::Delete => Plan::Edit(EngineKey::Delete),
                Key::ArrowLeft => Plan::Edit(EngineKey::Left),
                Key::ArrowRight => Plan::Edit(EngineKey::Right),
                Key::ArrowUp => Plan::Edit(EngineKey::Up),
                Key::ArrowDown => Plan::OpenPopup,
                Key::Tab => Plan::Edit(EngineKey::Tab),
                _ => match ascii_of(text) {
                    Some(b) => Plan::Edit(EngineKey::Ascii(b)),
                    None => Plan::Ignore,
                },
            },
            Mode::CandidateSelect => {
                let taken = self.pager.take();
                match taken {
                    Some(mut p) => {
                        let plan = Self::popup_key(&mut p, key);
                        self.pager = Some(p);
                        plan
                    },
                    None => Plan::Ignore,
                }
            },
        }
    }

    fn popup_key(p: &mut Paginator, key: Key) -> (plan: Plan)
        requires
            old(p).wf(),
        ensures
            final(p).wf(),
            final(p)@ == popup_cursor(old(p)@, key),
            plan == popup_plan(old(p)@, key),
    {
        match key {
            Key::Character(c) => match slot_of(c) {
                Some(s) => {
                    let start = p.page_start();
                    if s <= usize::MAX - start {
                        Plan::Choose(p.select_index(s))
                    } else {
                        Plan::Ignore
                    }
                },
                None => Plan::Ignore,
            },
            Key::ArrowDown => {
                if p.move_down() {
                    Plan::NextBatch
                } else {
                    Plan::Ignore
                }
            },
            Key::ArrowUp => {
                p.move_up();
                Plan::Ignore
            },
            Key::ArrowLeft => {
                p.move_left();
                Plan::Ignore
            },
            Key::ArrowRight => {
                p.move_right();
                Plan::Ignore
            },
            Key::Enter => Plan::Choose(p.selected()),
            Key::Escape => Plan::Cancel,
            _ => Plan::Ignore,
        }
    }

    /// The pointer is over position `index` of the window's page `page`: while
    /// the popup is open its cursor goes there when a candidate is there.
    pub fn hover(&mut self, page: usize, index: usize)
        requires
            old(self).wf(),
        ensures
            final(self).wf(),
            !(old(self).mode is CandidateSelect) ==> *final(self) == *old(self),
            old(self).mode is CandidateSelect ==> {
                &&& (final(self).pager matches Some(p) && p@ == old(self).pager->0@.hovered(
                    page as nat,
                    index as nat,
                ))
                &&& final(self).mode == old(self).mode
                &&& final(self).popup == old(self).popup
                &&& final(self).shift_armed == old(self).shift_armed
                &&& final(self).forced_passthrough == old(self).forced_passthrough
                &&& final(self).preedit == old(self).preedit
                &&& final(self).cursor == old(self).cursor
            },
    {
        if let Mode::CandidateSelect = self.mode {
            let taken = self.pager.take();
            match taken {
                Some(mut p) => {
                    p.hover(page, index);
                    self.pager = Some(p);
                },
                None => {},
            }
        }
    }

    /// A click on the popup selects the candidate under the cursor.
    pub fn click(&self) -> (plan: Plan)
        requires
            self.wf(),
        ensures
            self.mode is CandidateSelect ==> plan == Plan::Choose(self.pager->0@.flat_index() as usize),
            !(self.mode is CandidateSelect) ==> plan is Ignore,
    {
        match self.mode {
            Mode::CandidateSelect => match &self.pager {
                Some(p) => Plan::Choose(p.selected()),
                None => Plan::Ignore,
            },
            _ => Plan::Ignore,
        }
    }
}

/// The chewing key stroke for an engine key: its keycode and key symbol, or
/// the ASCII character it types.
pub open spec fn stroke_of(k: EngineKey) -> StrokeView {
    match k {
        EngineKey::Backspace => StrokeView::Control {
            code: KEY_BACKSPACE,
            sym: SYM_BACKSPACE,
            shift: false,
        },
        EngineKey::Space => StrokeView::Control { code: KEY_SPACE, sym: SYM_SPACE, shift: false },
        EngineKey::ShiftSpace => StrokeView::Control {
            code: KEY_SPACE,
            sym: SYM_SPACE,
            shift: true,
        },
        EngineKey::Enter => StrokeView::Control { code: KEY_ENTER, sym: SYM_RETURN, shift: false },
        EngineKey::Escape => StrokeView::Control { code: KEY_ESC, sym: SYM_ESC, shift: false },
        EngineKey::Delete => StrokeView::Control { code: KEY_DELETE, sym: SYM_DELETE, shift: false },
        EngineKey::Left => StrokeView::Control { code: KEY_LEFT, sym: SYM_LEFT, shift: false },
        EngineKey::Right => StrokeView::Control { code: KEY_RIGHT, sym: SYM_RIGHT, shift: false },
        EngineKey::Up => StrokeView::Control { code: KEY_UP, sym: SYM_UP, shift: false },
        EngineKey::Down => StrokeView::Control { code: KEY_DOWN, sym: SYM_DOWN, shift: false },
        EngineKey::Tab => StrokeView::Control { code: KEY_TAB, sym: SYM_TAB, shift: false },
        EngineKey::Ascii(b) => StrokeView::Ascii(b),
    }
}

/// The inputs a planned key press hands to the engine, in order.
pub open spec fn plan_inputs(plan: Plan) -> Seq<EngineInput> {
    match plan {
        Plan::Ignore | Plan::Forward => Seq::<EngineInput>::empty(),
        Plan::Edit(k) | Plan::Silent(k) => seq![EngineInput::Stroke(stroke_of(k))],
        Plan::TryCompose(b) => seq![EngineInput::Stroke(StrokeView::Ascii(b))],
        Plan::CommitAll => seq![EngineInput::Stroke(stroke_of(EngineKey::Enter))],
        Plan::OpenPopup | Plan::NextBatch => seq![EngineInput::Stroke(stroke_of(EngineKey::Down))],
        Plan::Choose(i) => if i <= usize::MAX / 2 {
            seq![EngineInput::Select(i)]
        } else {
            Seq::<EngineInput>::empty()
        },
        Plan::Cancel => seq![EngineInput::Stroke(stroke_of(EngineKey::Escape))],
    }
}

/// The key stroke that performs an engine key.
pub fn engine_stroke(k: EngineKey) -> (r: KeyStroke)
    ensures
        r@ == stroke_of(k),
{
    match k {
        EngineKey::Backspace => KeyStroke::control(KEY_BACKSPACE, SYM_BACKSPACE, false),
        EngineKey::Space => KeyStroke::control(KEY_SPACE, SYM_SPACE, false),
        EngineKey::ShiftSpace => KeyStroke::control(KEY_SPACE, SYM_SPACE, true),
        EngineKey::Enter => KeyStroke::control(KEY_ENTER, SYM_RETURN, false),
        EngineKey::Escape => KeyStroke::control(KEY_ESC, SYM_ESC, false),
        EngineKey::Delete => KeyStroke::control(KEY_DELETE, SYM_DELETE, false),
        EngineKey::Left => KeyStroke::control(KEY_LEFT, SYM_LEFT, false),
        EngineKey::Right => KeyStroke::control(KEY_RIGHT, SYM_RIGHT, false),
        EngineKey::Up => KeyStroke::control(KEY_UP, SYM_UP, false),
        EngineKey::Down => KeyStroke::control(KEY_DOWN, SYM_DOWN, false),
        EngineKey::Tab => KeyStroke::control(KEY_TAB, SYM_TAB, false),
        EngineKey::Ascii(b) => KeyStroke::ascii(b),
    }
}

/// The pre-edit shown for the engine's state: the converted text followed by
/// the phonetic fragment not converted yet.
pub fn join_preedit(converted: String, pending: String) -> (r: String)
    ensures
        r@ == converted@ + pending@,
{
    converted.concat(pending.as_str())
}

/// The popup's cursor after a key press in candidate selection that the
/// engine refused or that needed no engine call.
pub open spec fn cursor_kept(old: Controller, new: Controller, pv: PagerView) -> bool {
    &&& (new.pager matches Some(p) && p@ == pv)
    &&& new.mode == old.mode
    &&& new.popup == old.popup
    &&& new.shift_armed == old.shift_armed
    &&& new.forced_passthrough == old.forced_passthrough
    &&& new.preedit == old.preedit
    &&& new.cursor == old.cursor
}

/// A running session: its state and the composition engine it drives.
pub struct Session {
    pub core: Controller,
    pub engine: Engine,
}

impl Session {
    pub open spec fn wf(&self) -> bool {
        self.core.wf()
    }

    /// A session in pass-through mode around `editor`.
    pub fn new(editor: Editor) -> (r: Session)
        ensures
            r.wf(),
            r.engine.inputs() == Seq::<EngineInput>::empty(),
            r.core.mode is PassThrough,
            !r.core.popup,
            !r.core.shift_armed,
            !r.core.forced_passthrough,
            r.core.preedit@.len() == 0,
            r.core.cursor == 0,
            r.core.pager is None,
    {
        Session { core: Controller::new(), engine: Engine::new(editor) }
    }

    fn engine_preedit(&self) -> String {
        join_preedit(self.engine.display(), self.engine.pending())
    }

    /// Carries out a planned key press with the engine.
    fn carry_out(&mut self, plan: Plan) -> (r: Vec<Action>)
        requires
            old(self).wf(),
            plan is Edit || plan is OpenPopup || plan is CommitAll ==> old(self).core.mode is PreEdit,
            plan is TryCompose || plan is Silent ==> old(self).core.mode is PassThrough,
            plan is Choose || plan is NextBatch || plan is Cancel ==> old(self).core.mode is CandidateSelect,
        ensures
            final(self).wf(),
            final(self).engine.inputs() == old(self).engine.inputs() + plan_inputs(plan),
            final(self).core.shift_armed == old(self).core.shift_armed,
            final(self).core.forced_passthrough == old(self).core.forced_passthrough,
            plan_outcome(plan, old(self).core, final(self).core, r@),
            plan is Ignore || plan is Forward ==> final(self).core == old(self).core
                && final(self).engine == old(self).engine,
            plan is Choose && r@.len() == 0 ==> final(self).core == old(self).core,
            plan is NextBatch ==> {
                &&& final(self).core.mode == old(self).core.mode
                &&& (final(self).core.pager matches Some(p) && (p@ == old(self).core.pager->0@ || (
                p@.page == 0 && p@.index == 0)))
            },
    {
        match plan {
            Plan::Ignore => Vec::new(),
            Plan::Forward => {
                let mut r: Vec<Action> = Vec::new();
                r.push(Action::ForwardKey);
                assert(r@ =~= seq![Action::ForwardKey]);
                r
            },
            Plan::Edit(k) => {
                self.engine.feed(engine_stroke(k));
                let text = self.engine_preedit();
                let cp = self.engine.cursor();
                self.core.show_preedit(text, cp)
            },
            Plan::TryCompose(b) => {
                self.engine.feed(KeyStroke::ascii(b));
                let text = self.engine_preedit();
                let cp = self.engine.cursor();
                self.core.compose_or_forward(text, cp)
            },
            Plan::Silent(k) => {
                self.engine.feed(engine_stroke(k));
                Vec::new()
            },
            Plan::CommitAll => {
                let text = self.engine_preedit();
                self.engine.feed(engine_stroke(EngineKey::Enter));
                self.core.commit_all(text)
            },
            Plan::OpenPopup => {
                let text = self.engine_preedit();
                self.engine.feed(engine_stroke(EngineKey::Down));
                let candidates = self.engine.candidates();
                let cp = self.engine.cursor();
                self.core.open_popup(text, cp, candidates)
            },
            Plan::Choose(i) => {
                let accepted = self.engine.select(i) && !self.engine.is_selecting();
                let text = self.engine_preedit();
                let cp = self.engine.cursor();
                self.core.chosen(accepted, text, cp)
            },
            Plan::NextBatch => {
                self.engine.feed(engine_stroke(EngineKey::Down));
                let candidates = self.engine.candidates();
                self.core.refresh_candidates(candidates);
                Vec::new()
            },
            Plan::Cancel => {
                self.engine.feed(engine_stroke(EngineKey::Escape));
                let text = self.engine_preedit();
                let cp = self.engine.cursor();
                self.core.cancelled(text, cp)
            },
        }
    }

    /// Handles one host event and returns the actions for the host, in order.
    /// Where the engine is involved the contract says what holds whatever it
    /// answered; the rest is exact.
    pub fn update(&mut self, event: Event) -> (r: Vec<Action>)
        requires
            old(self).wf(),
        ensures
            final(self).wf(),
            event is Activate ==> final(self).core == (Controller {
                mode: Mode::PassThrough,
                popup: false,
                pager: None,
                ..old(self).core
            }) && r@.len() == 0 && final(self).engine == old(self).engine,
            event is Deactivate ==> final(self).core == (Controller {
                mode: Mode::PassThrough,
                popup: false,
                pager: None,
                ..old(self).core
            }) && r@ == seq![Action::HidePopup],
            event is Deactivate ==> final(self).engine.inputs() == old(self).engine.inputs().push(
                EngineInput::Stroke(stroke_of(EngineKey::Escape)),
            ),
            event is KeyPressed ==> final(self).engine.inputs() == old(self).engine.inputs()
                + plan_inputs(
                key_plan(
                    old(self).core,
                    event->KeyPressed_key,
                    event->KeyPressed_text,
                    event->KeyPressed_shift,
                ),
            ),
            event is Click && old(self).core.mode is CandidateSelect ==> final(self).engine.inputs()
                == old(self).engine.inputs() + plan_inputs(
                Plan::Choose(old(self).core.pager->0@.flat_index() as usize),
            ),
            event is KeyPressed ==> plan_outcome(
                key_plan(
                    old(self).core,
                    event->KeyPressed_key,
                    event->KeyPressed_text,
                    event->KeyPressed_shift,
                ),
                old(self).core,
                final(self).core,
                r@,
            ),
            event is KeyPressed && old(self).core.mode is AwaitingAck ==> {
                &&& final(self).core == old(self).core
                &&& final(self).engine == old(self).engine
                &&& r@.len() == 0
            },
            event is KeyPressed && ({
                let plan = key_plan(
                    old(self).core,
                    event->KeyPressed_key,
                    event->KeyPressed_text,
                    event->KeyPressed_shift,
                );
                plan is Ignore || plan is Forward
            }) ==> final(self).engine == old(self).engine,
            event is KeyPressed && old(self).core.mode is PassThrough ==> {
                &&& final(self).core.shift_armed == (event->KeyPressed_key is Shift)
                &&& final(self).core.forced_passthrough == old(self).core.forced_passthrough
            },
            event is KeyPressed && old(self).core.mode is CandidateSelect ==> {
                let key = event->KeyPressed_key;
                let pv = old(self).core.pager->0@;
                let plan = popup_plan(pv, key);
                &&& plan is Ignore ==> cursor_kept(old(self).core, final(self).core, popup_cursor(
                    pv,
                    key,
                )) && final(self).engine == old(self).engine
                &&& plan is Choose && r@.len() == 0 ==> cursor_kept(
                    old(self).core,
                    final(self).core,
                    pv,
                )
                &&& plan is NextBatch ==> (final(self).core.pager matches Some(p) && (p@
                    == pv.moved_down() || (p@.page == 0 && p@.index == 0)))
            },
            event is KeyReleased ==> final(self).core == released_next(
                old(self).core,
                event->KeyReleased_key,
            ) && r@ == released_actions(old(self).core, event->KeyReleased_key) && final(self).engine == old(self).engine,
            event is Modifiers ==> final(self).core == old(self).core && final(self).engine == old(self).engine && r@ == seq![Action::ForwardModifiers],
            event is Done ==> final(self).core == done_next(old(self).core) && final(self).engine
                == old(self).engine && r@ == done_actions(old(self).core),
            event is Hover ==> r@.len() == 0 && final(self).engine == old(self).engine,
            event is Hover && old(self).core.mode is CandidateSelect ==> cursor_kept(
                old(self).core,
                final(self).core,
                old(self).core.pager->0@.hovered(event->page as nat, event->index as nat),
            ),
            event is Hover && !(old(self).core.mode is CandidateSelect) ==> final(self).core == old(self).core,
            event is Click && old(self).core.mode is CandidateSelect ==> plan_outcome(
                Plan::Choose(old(self).core.pager->0@.flat_index() as usize),
                old(self).core,
                final(self).core,
                r@,
            ),
            event is Click && !(old(self).core.mode is CandidateSelect) ==> final(self).core == old(self).core && final(self).engine == old(self).engine && r@.len() == 0,
    {
        match event {
            Event::Activate => {
                self.core.activate();
                Vec::new()
            },
            Event::Deactivate => {
                self.engine.feed(engine_stroke(EngineKey::Escape));
                self.core.deactivate()
            },
            Event::KeyPressed { key, text, shift } => {
                let plan = self.core.on_key(key, text, shift);
                self.carry_out(plan)
            },
            Event::KeyReleased { key } => self.core.key_released(key),
            Event::Modifiers => {
                let mut r: Vec<Action> = Vec::new();
                r.push(Action::ForwardModifiers);
                assert(r@ =~= seq![Action::ForwardModifiers]);
                r
            },
            Event::Done => self.core.done(),
            Event::Hover { page, index } => {
                self.core.hover(page, index);
                Vec::new()
            },
            Event::Click => {
                let plan = self.core.click();
                self.carry_out(plan)
            },
        }
    }
}

} // verus!
