use ime_session::session::{join_preedit, Action, Controller, EngineKey, Key, Mode, Plan};

fn items(n: usize) -> Vec<String> {
    (0..n).map(|i| format!("w{}", i)).collect()
}

fn set_preedit(text: &str, at: usize) -> Action {
    Action::SetPreedit { text: text.to_string(), cursor_begin: at, cursor_end: at }
}

/// A controller with the popup open on `n` candidates.
fn popup_open(n: usize) -> Controller {
    let mut c = Controller::new();
    let acts = c.open_popup("ㄅㄧㄢ".to_string(), 3, items(n));
    assert_eq!(acts, vec![set_preedit("ㄅㄧㄢ", 9), Action::Commit]);
    assert_eq!(c.done(), vec![Action::ShowPopup]);
    assert_eq!(c.mode, Mode::CandidateSelect);
    c
}

#[test]
fn new_session_passes_through() {
    let c = Controller::new();
    assert_eq!(c.mode, Mode::PassThrough);
    assert!(!c.popup);
    assert!(c.pager.is_none());
    assert_eq!(c.preedit, "");
}

#[test]
fn passthrough_key_without_syllable_is_forwarded() {
    let mut c = Controller::new();
    let plan = c.on_key(Key::Character('q'), Some('q'), false);
    assert_eq!(plan, Plan::TryCompose(b'q'));
    // The engine produced no composition from it.
    let acts = c.compose_or_forward(String::new(), 0);
    assert_eq!(acts, vec![Action::ForwardKey]);
    assert_eq!(c.mode, Mode::PassThrough);
    assert_eq!(c.preedit, "");
}

#[test]
fn passthrough_key_that_starts_a_syllable_shows_preedit() {
    let mut c = Controller::new();
    assert_eq!(c.on_key(Key::Character('1'), Some('1'), false), Plan::TryCompose(b'1'));
    let acts = c.compose_or_forward("ㄅ".to_string(), 1);
    assert_eq!(acts, vec![set_preedit("ㄅ", 3), Action::Commit]);
    assert_eq!(c.mode, Mode::AwaitingAck);
    assert_eq!(c.done(), vec![]);
    assert_eq!(c.mode, Mode::PreEdit);
}

#[test]
fn done_with_popup_planned_shows_it_once() {
    let mut c = Controller::new();
    c.open_popup("ㄅㄧㄢ".to_string(), 3, items(23));
    assert_eq!(c.mode, Mode::AwaitingAck);
    assert!(c.popup);
    let first = c.done();
    assert_eq!(first, vec![Action::ShowPopup]);
    assert_eq!(c.mode, Mode::CandidateSelect);
    let second = c.done();
    assert!(second.is_empty());
    assert_eq!(c.mode, Mode::CandidateSelect);
}

#[test]
fn empty_candidates_never_enter_selection() {
    let mut c = Controller::new();
    c.show_preedit("ㄅ".to_string(), 1);
    c.done();
    assert_eq!(c.mode, Mode::PreEdit);
    assert_eq!(c.on_key(Key::ArrowDown, None, false), Plan::OpenPopup);
    let acts = c.open_popup("ㄅ".to_string(), 1, Vec::new());
    assert!(acts.is_empty());
    assert_eq!(c.mode, Mode::PreEdit);
    assert!(!c.popup);
    assert!(c.pager.is_none());
    assert!(c.done().is_empty());
    assert_eq!(c.mode, Mode::PreEdit);
}

#[test]
fn preedit_update_keeps_the_popup_plan() {
    let mut c = Controller::new();
    c.open_popup("ㄅ".to_string(), 1, items(5));
    assert!(c.popup);
    let acts = c.show_preedit("ㄅㄧ".to_string(), 2);
    assert_eq!(acts, vec![set_preedit("ㄅㄧ", 6), Action::Commit]);
    assert!(c.popup);
    assert_eq!(c.pager.as_ref().unwrap().candidates().len(), 5);
    assert_eq!(c.done(), vec![Action::ShowPopup]);
    assert_eq!(c.mode, Mode::CandidateSelect);
}

#[test]
fn preedit_joins_converted_text_and_pending_syllable() {
    assert_eq!(join_preedit("你好".to_string(), "ㄅㄧ".to_string()), "你好ㄅㄧ");
    assert_eq!(join_preedit(String::new(), "ㄅ".to_string()), "ㄅ");
    assert_eq!(join_preedit("中".to_string(), String::new()), "中");
}

#[test]
fn done_without_preedit_returns_to_passthrough() {
    let mut c = Controller::new();
    c.show_preedit(String::new(), 0);
    assert_eq!(c.mode, Mode::AwaitingAck);
    assert!(c.done().is_empty());
    assert_eq!(c.mode, Mode::PassThrough);
}

#[test]
fn done_outside_awaiting_does_nothing() {
    let mut c = Controller::new();
    assert!(c.done().is_empty());
    assert_eq!(c.mode, Mode::PassThrough);
}

#[test]
fn keys_are_dropped_while_awaiting() {
    let mut c = Controller::new();
    c.show_preedit("ㄅ".to_string(), 1);
    for key in [Key::Enter, Key::Escape, Key::ArrowDown, Key::Character('a')] {
        assert_eq!(c.on_key(key, Some('a'), false), Plan::Ignore);
    }
    assert_eq!(c.mode, Mode::AwaitingAck);
    assert_eq!(c.preedit, "ㄅ");
}

#[test]
fn preedit_keys_plan_engine_operations() {
    let mut c = Controller::new();
    c.show_preedit("ㄅ".to_string(), 1);
    c.done();
    assert_eq!(c.mode, Mode::PreEdit);
    assert_eq!(c.on_key(Key::Backspace, None, false), Plan::Edit(EngineKey::Backspace));
    assert_eq!(c.on_key(Key::Space, Some(' '), false), Plan::Edit(EngineKey::Space));
    assert_eq!(c.on_key(Key::Space, Some(' '), true), Plan::Edit(EngineKey::ShiftSpace));
    assert_eq!(c.on_key(Key::Enter, None, false), Plan::CommitAll);
    assert_eq!(c.on_key(Key::Escape, None, false), Plan::Edit(EngineKey::Escape));
    assert_eq!(c.on_key(Key::Delete, None, false), Plan::Edit(EngineKey::Delete));
    assert_eq!(c.on_key(Key::ArrowLeft, None, false), Plan::Edit(EngineKey::Left));
    assert_eq!(c.on_key(Key::ArrowRight, None, false), Plan::Edit(EngineKey::Right));
    assert_eq!(c.on_key(Key::ArrowUp, None, false), Plan::Edit(EngineKey::Up));
    assert_eq!(c.on_key(Key::ArrowDown, None, false), Plan::OpenPopup);
    assert_eq!(c.on_key(Key::Tab, None, false), Plan::Edit(EngineKey::Tab));
    assert_eq!(c.on_key(Key::Character('j'), Some('j'), false), Plan::Edit(EngineKey::Ascii(b'j')));
    assert_eq!(c.on_key(Key::Other, None, false), Plan::Ignore);
    assert_eq!(c.on_key(Key::Other, Some('中'), false), Plan::Ignore);
    assert_eq!(c.mode, Mode::PreEdit);
}

#[test]
fn enter_commits_everything() {
    let mut c = Controller::new();
    c.show_preedit("你好".to_string(), 2);
    c.done();
    let acts = c.commit_all("你好".to_string());
    assert_eq!(acts, vec![Action::CommitString("你好".to_string()), Action::Commit]);
    assert_eq!(c.mode, Mode::PassThrough);
    assert_eq!(c.preedit, "");
    assert_eq!(c.cursor, 0);
}

#[test]
fn preedit_cursor_is_clamped_to_the_text() {
    let mut c = Controller::new();
    let acts = c.show_preedit("ㄅㄧ".to_string(), 7);
    assert_eq!(acts, vec![set_preedit("ㄅㄧ", 6), Action::Commit]);
    assert_eq!(c.cursor, 6);
}

#[test]
fn shift_tap_toggles_forced_passthrough() {
    let mut c = Controller::new();
    assert_eq!(c.on_key(Key::Shift, None, true), Plan::Ignore);
    assert!(c.shift_armed);
    assert!(c.key_released(Key::Shift).is_empty());
    assert!(c.forced_passthrough);
    assert_eq!(c.on_key(Key::Character('j'), Some('j'), false), Plan::Forward);
    assert_eq!(c.key_released(Key::Character('j')), vec![Action::ForwardKey]);
    // Tap again to switch composition back on.
    c.on_key(Key::Shift, None, true);
    c.key_released(Key::Shift);
    assert!(!c.forced_passthrough);
    assert_eq!(c.on_key(Key::Character('j'), Some('j'), false), Plan::TryCompose(b'j'));
}

#[test]
fn shift_with_another_key_does_not_toggle() {
    let mut c = Controller::new();
    c.on_key(Key::Shift, None, true);
    assert_eq!(c.on_key(Key::Character('A'), Some('A'), true), Plan::TryCompose(b'A'));
    assert!(!c.shift_armed);
    assert_eq!(c.key_released(Key::Shift), vec![Action::ForwardKey]);
    assert!(!c.forced_passthrough);
}

#[test]
fn passthrough_space_and_other_keys() {
    let mut c = Controller::new();
    assert_eq!(c.on_key(Key::Space, Some(' '), false), Plan::Forward);
    assert_eq!(c.on_key(Key::Space, Some(' '), true), Plan::Silent(EngineKey::ShiftSpace));
    assert_eq!(c.on_key(Key::Other, None, false), Plan::Forward);
    assert_eq!(c.on_key(Key::Other, Some('é'), false), Plan::Forward);
}

#[test]
fn releases_are_dropped_outside_passthrough() {
    let mut c = popup_open(5);
    assert!(c.key_released(Key::Character('a')).is_empty());
    assert!(c.key_released(Key::Shift).is_empty());
}

#[test]
fn digits_choose_on_the_current_page() {
    let mut c = popup_open(23);
    assert_eq!(c.on_key(Key::Character('1'), Some('1'), false), Plan::Choose(0));
    assert_eq!(c.on_key(Key::Character('0'), Some('0'), false), Plan::Choose(9));
    assert_eq!(c.on_key(Key::ArrowRight, None, false), Plan::Ignore);
    assert_eq!(c.on_key(Key::Character('3'), Some('3'), false), Plan::Choose(12));
    c.on_key(Key::ArrowRight, None, false);
    // The last page holds three candidates.
    assert_eq!(c.on_key(Key::Character('3'), Some('3'), false), Plan::Choose(22));
    // Past the end of the short page the index still goes to the engine,
    // which refuses it.
    assert_eq!(c.on_key(Key::Character('4'), Some('4'), false), Plan::Choose(23));
    assert_eq!(c.on_key(Key::Character('0'), Some('0'), false), Plan::Choose(29));
    assert_eq!(c.on_key(Key::Character('x'), Some('x'), false), Plan::Ignore);
    assert_eq!(c.mode, Mode::CandidateSelect);
}

#[test]
fn arrows_navigate_the_popup() {
    let mut c = popup_open(23);
    assert_eq!(c.on_key(Key::ArrowDown, None, false), Plan::Ignore);
    assert_eq!(c.on_key(Key::ArrowDown, None, false), Plan::Ignore);
    assert_eq!(c.on_key(Key::ArrowUp, None, false), Plan::Ignore);
    assert_eq!(c.on_key(Key::Enter, None, false), Plan::Choose(1));
    c.on_key(Key::ArrowRight, None, false);
    c.on_key(Key::ArrowRight, None, false);
    assert_eq!(c.on_key(Key::Enter, None, false), Plan::Choose(21));
    assert_eq!(c.on_key(Key::ArrowDown, None, false), Plan::Ignore);
    assert_eq!(c.on_key(Key::ArrowDown, None, false), Plan::NextBatch);
    c.on_key(Key::ArrowLeft, None, false);
    assert_eq!(c.on_key(Key::Enter, None, false), Plan::Choose(12));
}

#[test]
fn next_batch_resets_the_cursor() {
    let mut c = popup_open(3);
    c.on_key(Key::ArrowDown, None, false);
    c.on_key(Key::ArrowDown, None, false);
    assert_eq!(c.on_key(Key::ArrowDown, None, false), Plan::NextBatch);
    c.refresh_candidates(items(12));
    let p = c.pager.as_ref().unwrap();
    assert_eq!(p.page(), 0);
    assert_eq!(p.index(), 0);
    assert_eq!(p.candidates().len(), 12);
    // An empty batch keeps the current one.
    c.on_key(Key::ArrowDown, None, false);
    c.refresh_candidates(Vec::new());
    assert_eq!(c.pager.as_ref().unwrap().index(), 1);
    assert_eq!(c.mode, Mode::CandidateSelect);
}

#[test]
fn accepted_choice_hides_the_popup() {
    let mut c = popup_open(23);
    let acts = c.chosen(true, "邊".to_string(), 1);
    assert_eq!(acts, vec![set_preedit("邊", 3), Action::Commit, Action::HidePopup]);
    assert_eq!(c.mode, Mode::AwaitingAck);
    assert!(c.pager.is_none());
    assert!(c.done().is_empty());
    assert_eq!(c.mode, Mode::PreEdit);
}

#[test]
fn refused_choice_changes_nothing() {
    let mut c = popup_open(23);
    let acts = c.chosen(false, "x".to_string(), 1);
    assert!(acts.is_empty());
    assert_eq!(c.mode, Mode::CandidateSelect);
    assert_eq!(c.preedit, "ㄅㄧㄢ");
    assert!(c.pager.is_some());
}

#[test]
fn escape_cancels_selection() {
    let mut c = popup_open(23);
    assert_eq!(c.on_key(Key::Escape, None, false), Plan::Cancel);
    let acts = c.cancelled("ㄅㄧㄢ".to_string(), 2);
    assert_eq!(acts, vec![set_preedit("ㄅㄧㄢ", 6), Action::Commit, Action::HidePopup]);
    assert_eq!(c.mode, Mode::PreEdit);
    assert!(c.pager.is_none());
}

#[test]
fn hover_and_click_pick_a_candidate() {
    let mut c = popup_open(23);
    c.hover(1, 4);
    assert_eq!(c.click(), Plan::Choose(14));
    c.hover(3, 0);
    assert_eq!(c.click(), Plan::Choose(14));
    let mut idle = Controller::new();
    idle.hover(1, 4);
    assert_eq!(idle.click(), Plan::Ignore);
}

#[test]
fn deactivate_resets_to_passthrough() {
    let mut c = popup_open(23);
    assert_eq!(c.deactivate(), vec![Action::HidePopup]);
    assert_eq!(c.mode, Mode::PassThrough);
    assert!(c.pager.is_none());
    c.activate();
    assert_eq!(c.mode, Mode::PassThrough);
    let mut open = popup_open(3);
    open.activate();
    assert_eq!(open.mode, Mode::PassThrough);
    assert!(open.pager.is_none());
}
