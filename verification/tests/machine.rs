use passmng::mode::{Action, Field, InputMode, Key};
use passmng::record::Password;
use passmng::session::PassMng;
use passmng::store::StoreError;

fn two_records() -> Vec<Password> {
    vec![
        Password::new_with_id(1, "Bank".into(), "alice".into(), "p1".into()),
        Password::new_with_id(2, "Mail".into(), "bob".into(), "p2".into()),
    ]
}

fn keys(session: &mut PassMng, keys: &[Key]) {
    for key in keys {
        session.handle_key(*key);
    }
}

fn type_text(session: &mut PassMng, text: &str) {
    for ch in text.chars() {
        session.handle_key(Key::Char(ch));
    }
}

#[test]
fn a_new_session_is_at_rest() {
    let session = PassMng::new(two_records());
    assert_eq!(session.mode(), InputMode::Normal);
    assert_eq!(session.selected(), None);
    assert_eq!(session.search_txt(), "");
    assert_eq!(session.buffer(Field::Title), "");
    assert_eq!(session.buffer(Field::Username), "");
    assert_eq!(session.buffer(Field::Password), "");
    assert!(!session.edit_mode());
    assert_eq!(session.edit_index(), None);
    assert_eq!(session.passwords(), &two_records());
    assert_eq!(session.search_list().len(), 0);
    assert_eq!(session.displayed(), &two_records());
}

#[test]
fn resting_keys_lead_to_their_modes() {
    let mut session = PassMng::new(two_records());
    assert_eq!(session.handle_key(Key::Char('s')), Action::Idle);
    assert_eq!(session.mode(), InputMode::Search);

    let mut session = PassMng::new(two_records());
    assert_eq!(session.handle_key(Key::Char('l')), Action::Idle);
    assert_eq!(session.mode(), InputMode::List);

    let mut session = PassMng::new(two_records());
    assert_eq!(session.handle_key(Key::Insert), Action::Idle);
    assert_eq!(session.mode(), InputMode::Title);

    let mut session = PassMng::new(two_records());
    assert_eq!(session.handle_key(Key::Char('q')), Action::Quit);
    assert_eq!(session.mode(), InputMode::Normal);
}

#[test]
fn resting_ignores_other_keys() {
    let mut session = PassMng::new(two_records());
    for key in [Key::Char('x'), Key::Enter, Key::Esc, Key::Tab, Key::BackTab, Key::Up, Key::Down, Key::Backspace, Key::Other] {
        assert_eq!(session.handle_key(key), Action::Idle);
        assert_eq!(session.mode(), InputMode::Normal);
        assert_eq!(session.selected(), None);
    }
}

#[test]
fn tab_walks_the_field_chain_forward() {
    let mut session = PassMng::new(Vec::new());
    session.handle_key(Key::Insert);
    assert_eq!(session.mode(), InputMode::Title);
    session.handle_key(Key::Tab);
    assert_eq!(session.mode(), InputMode::Username);
    session.handle_key(Key::Tab);
    assert_eq!(session.mode(), InputMode::Password);
    session.handle_key(Key::Tab);
    assert_eq!(session.mode(), InputMode::Submit);
    session.handle_key(Key::Tab);
    assert_eq!(session.mode(), InputMode::Submit);
}

#[test]
fn back_tab_walks_the_field_chain_backward_and_stops_at_the_title() {
    let mut session = PassMng::new(Vec::new());
    keys(&mut session, &[Key::Insert, Key::Tab, Key::Tab, Key::Tab]);
    assert_eq!(session.mode(), InputMode::Submit);
    session.handle_key(Key::BackTab);
    assert_eq!(session.mode(), InputMode::Password);
    session.handle_key(Key::BackTab);
    assert_eq!(session.mode(), InputMode::Username);
    session.handle_key(Key::BackTab);
    assert_eq!(session.mode(), InputMode::Title);
    session.handle_key(Key::BackTab);
    assert_eq!(session.mode(), InputMode::Title);
}

#[test]
fn characters_go_to_the_buffer_of_the_field_in_focus() {
    let mut session = PassMng::new(Vec::new());
    session.handle_key(Key::Insert);
    type_text(&mut session, "Bank");
    session.handle_key(Key::Tab);
    type_text(&mut session, "alice");
    session.handle_key(Key::Tab);
    type_text(&mut session, "p1");
    assert_eq!(session.buffer(Field::Title), "Bank");
    assert_eq!(session.buffer(Field::Username), "alice");
    assert_eq!(session.buffer(Field::Password), "p1");
}

#[test]
fn backspace_removes_the_last_character_and_stops_at_empty() {
    let mut session = PassMng::new(Vec::new());
    session.handle_key(Key::Insert);
    type_text(&mut session, "ab");
    session.handle_key(Key::Backspace);
    assert_eq!(session.buffer(Field::Title), "a");
    session.handle_key(Key::Backspace);
    assert_eq!(session.buffer(Field::Title), "");
    session.handle_key(Key::Backspace);
    assert_eq!(session.buffer(Field::Title), "");
    assert_eq!(session.mode(), InputMode::Title);
}

#[test]
fn backspace_removes_a_whole_character_of_any_width() {
    let mut session = PassMng::new(Vec::new());
    session.handle_key(Key::Insert);
    type_text(&mut session, "né");
    session.handle_key(Key::Backspace);
    assert_eq!(session.buffer(Field::Title), "n");
}

#[test]
fn escape_abandons_typing_in_every_field() {
    for tabs in 0..4 {
        let mut session = PassMng::new(Vec::new());
        session.handle_key(Key::Insert);
        type_text(&mut session, "x");
        for _ in 0..tabs {
            session.handle_key(Key::Tab);
            type_text(&mut session, "y");
        }
        assert_eq!(session.handle_key(Key::Esc), Action::Idle);
        assert_eq!(session.mode(), InputMode::Normal);
        assert_eq!(session.buffer(Field::Title), "");
        assert_eq!(session.buffer(Field::Username), "");
        assert_eq!(session.buffer(Field::Password), "");
    }
}

#[test]
fn escape_from_an_edit_ends_the_edit_and_rests() {
    let mut session = PassMng::new(two_records());
    keys(&mut session, &[Key::Char('l'), Key::Down, Key::Down, Key::Char('e')]);
    assert!(session.edit_mode());
    assert_eq!(session.edit_index(), Some(1));
    assert_eq!(session.buffer(Field::Title), "Mail");
    session.handle_key(Key::Esc);
    assert_eq!(session.mode(), InputMode::Normal);
    assert!(!session.edit_mode());
    assert_eq!(session.edit_index(), None);
    assert_eq!(session.buffer(Field::Title), "");
    assert_eq!(session.passwords(), &two_records());
}

#[test]
fn an_insert_request_after_an_abandoned_edit_inserts() {
    let mut session = PassMng::new(two_records());
    keys(&mut session, &[Key::Char('l'), Key::Down, Key::Char('e'), Key::Tab, Key::Tab, Key::Tab, Key::Esc]);
    keys(&mut session, &[Key::Insert]);
    assert_eq!(session.buffer(Field::Title), "");
    type_text(&mut session, "Shop");
    keys(&mut session, &[Key::Tab, Key::Tab, Key::Tab]);
    assert_eq!(
        session.handle_key(Key::Enter),
        Action::StoreInsert(Password::new("Shop".into(), "".into(), "".into()))
    );
}

#[test]
fn enter_at_the_submit_prompt_asks_for_an_insert_and_waits() {
    let mut session = PassMng::new(Vec::new());
    session.handle_key(Key::Insert);
    type_text(&mut session, "Bank");
    session.handle_key(Key::Tab);
    type_text(&mut session, "alice");
    session.handle_key(Key::Tab);
    type_text(&mut session, "p1");
    session.handle_key(Key::Tab);
    let action = session.handle_key(Key::Enter);
    assert_eq!(action, Action::StoreInsert(Password::new("Bank".into(), "alice".into(), "p1".into())));
    assert_eq!(session.mode(), InputMode::Submit);
    assert_eq!(session.passwords().len(), 0);
    assert_eq!(session.buffer(Field::Title), "Bank");
}

#[test]
fn enter_at_the_submit_prompt_asks_for_an_update_while_editing() {
    let mut session = PassMng::new(two_records());
    keys(&mut session, &[Key::Char('l'), Key::Down, Key::Down, Key::Char('e')]);
    type_text(&mut session, "!");
    keys(&mut session, &[Key::Tab, Key::Tab, Key::Tab]);
    let action = session.handle_key(Key::Enter);
    assert_eq!(action, Action::StoreUpdate(Password::new_with_id(2, "Mail!".into(), "bob".into(), "p2".into())));
    assert_eq!(session.mode(), InputMode::Submit);
    assert_eq!(session.passwords(), &two_records());
}

#[test]
fn the_submit_prompt_ignores_characters() {
    let mut session = PassMng::new(Vec::new());
    keys(&mut session, &[Key::Insert, Key::Tab, Key::Tab, Key::Tab]);
    assert_eq!(session.handle_key(Key::Char('x')), Action::Idle);
    assert_eq!(session.handle_key(Key::Backspace), Action::Idle);
    assert_eq!(session.mode(), InputMode::Submit);
    assert_eq!(session.buffer(Field::Password), "");
}

#[test]
fn searching_filters_as_the_text_grows_and_shrinks() {
    let mut session = PassMng::new(two_records());
    session.handle_key(Key::Char('s'));
    session.handle_key(Key::Char('M'));
    assert_eq!(session.search_txt(), "M");
    assert_eq!(session.search_list().len(), 1);
    assert_eq!(session.search_list()[0].title, "Mail");
    session.handle_key(Key::Char('x'));
    assert_eq!(session.search_txt(), "Mx");
    assert_eq!(session.search_list().len(), 0);
    assert_eq!(session.displayed(), &two_records());
    session.handle_key(Key::Backspace);
    assert_eq!(session.search_txt(), "M");
    assert_eq!(session.search_list().len(), 1);
    session.handle_key(Key::Backspace);
    assert_eq!(session.search_txt(), "");
    assert_eq!(session.search_list(), &two_records());
    session.handle_key(Key::Backspace);
    assert_eq!(session.search_txt(), "");
    assert_eq!(session.mode(), InputMode::Search);
}

#[test]
fn leaving_the_search_keeps_the_search_text() {
    let mut session = PassMng::new(two_records());
    keys(&mut session, &[Key::Char('s'), Key::Char('B'), Key::Esc]);
    assert_eq!(session.mode(), InputMode::Normal);
    assert_eq!(session.search_txt(), "B");
    assert_eq!(session.search_list().len(), 1);
}

#[test]
fn keys_with_a_meaning_at_rest_are_text_while_searching() {
    let mut session = PassMng::new(two_records());
    keys(&mut session, &[Key::Char('s'), Key::Char('q'), Key::Char('l')]);
    assert_eq!(session.mode(), InputMode::Search);
    assert_eq!(session.search_txt(), "ql");
}

#[test]
fn browsing_moves_the_selection() {
    let mut session = PassMng::new(two_records());
    session.handle_key(Key::Char('l'));
    session.handle_key(Key::Up);
    assert_eq!(session.selected(), Some(0));
    session.handle_key(Key::Down);
    assert_eq!(session.selected(), Some(1));
    session.handle_key(Key::Down);
    assert_eq!(session.selected(), Some(1));
    session.handle_key(Key::Up);
    assert_eq!(session.selected(), Some(0));
    session.handle_key(Key::Up);
    assert_eq!(session.selected(), Some(0));
}

#[test]
fn browsing_copies_a_field_of_the_selected_record() {
    let mut session = PassMng::new(two_records());
    session.handle_key(Key::Char('l'));
    assert_eq!(session.handle_key(Key::Char('u')), Action::Idle);
    assert_eq!(session.handle_key(Key::Char('p')), Action::Idle);
    keys(&mut session, &[Key::Down, Key::Down]);
    assert_eq!(session.handle_key(Key::Char('u')), Action::Copy("bob".to_string()));
    assert_eq!(session.handle_key(Key::Char('p')), Action::Copy("p2".to_string()));
    assert_eq!(session.mode(), InputMode::List);
    assert_eq!(session.selected(), Some(1));
}

#[test]
fn escape_while_browsing_drops_the_selection() {
    let mut session = PassMng::new(two_records());
    keys(&mut session, &[Key::Char('l'), Key::Down]);
    assert_eq!(session.selected(), Some(0));
    session.handle_key(Key::Esc);
    assert_eq!(session.selected(), None);
    assert_eq!(session.mode(), InputMode::Normal);
}

#[test]
fn edit_key_without_a_selection_changes_nothing() {
    let mut session = PassMng::new(two_records());
    session.handle_key(Key::Char('l'));
    assert_eq!(session.handle_key(Key::Char('e')), Action::Idle);
    assert_eq!(session.mode(), InputMode::List);
    assert!(!session.edit_mode());
    assert_eq!(session.buffer(Field::Title), "");
}

#[test]
fn the_delete_prompt_asks_the_store_on_yes_and_waits() {
    let mut session = PassMng::new(two_records());
    keys(&mut session, &[Key::Char('l'), Key::Down, Key::Down, Key::Char('d')]);
    assert_eq!(session.mode(), InputMode::Delete);
    assert_eq!(session.handle_key(Key::Char('y')), Action::StoreDelete(2));
    assert_eq!(session.mode(), InputMode::Delete);
    assert_eq!(session.passwords().len(), 2);
}

#[test]
fn the_delete_prompt_under_a_search_names_the_record_on_screen() {
    let mut session = PassMng::new(two_records());
    keys(&mut session, &[Key::Char('s'), Key::Char('M'), Key::Esc, Key::Char('l'), Key::Down]);
    assert_eq!(session.selected(), Some(0));
    assert_eq!(session.handle_key(Key::Char('u')), Action::Copy("bob".to_string()));
    assert_eq!(session.handle_key(Key::Char('p')), Action::Copy("p2".to_string()));
    session.handle_key(Key::Char('d'));
    assert_eq!(session.handle_key(Key::Char('y')), Action::StoreDelete(2));
    assert_eq!(session.delete(Ok(())), Ok(()));
    assert_eq!(session.passwords(), &vec![Password::new_with_id(1, "Bank".into(), "alice".into(), "p1".into())]);
}

#[test]
fn backspace_on_an_empty_search_text_searches_all_the_same() {
    let mut session = PassMng::new(two_records());
    session.handle_key(Key::Char('s'));
    assert_eq!(session.search_list().len(), 0);
    session.handle_key(Key::Backspace);
    assert_eq!(session.search_txt(), "");
    assert_eq!(session.search_list(), &two_records());
}

#[test]
fn the_delete_prompt_returns_to_the_list_on_no() {
    let mut session = PassMng::new(two_records());
    keys(&mut session, &[Key::Char('l'), Key::Down, Key::Char('d')]);
    assert_eq!(session.handle_key(Key::Char('n')), Action::Idle);
    assert_eq!(session.mode(), InputMode::List);
    assert_eq!(session.passwords(), &two_records());
    assert_eq!(session.selected(), Some(0));
}

#[test]
fn the_delete_prompt_ignores_other_keys() {
    let mut session = PassMng::new(two_records());
    keys(&mut session, &[Key::Char('l'), Key::Down, Key::Char('d')]);
    for key in [Key::Esc, Key::Enter, Key::Char('x'), Key::Up, Key::Down] {
        assert_eq!(session.handle_key(key), Action::Idle);
        assert_eq!(session.mode(), InputMode::Delete);
        assert_eq!(session.selected(), Some(0));
    }
}

#[test]
fn yes_at_a_delete_prompt_over_nothing_returns_to_the_list() {
    let mut session = PassMng::new(two_records());
    session.change_mode(InputMode::Delete);
    assert_eq!(session.handle_key(Key::Char('y')), Action::Idle);
    assert_eq!(session.mode(), InputMode::List);
    assert_eq!(session.passwords(), &two_records());
}

#[test]
fn a_failed_insert_leaves_the_session_at_the_submit_prompt() {
    let mut session = PassMng::new(two_records());
    session.handle_key(Key::Insert);
    type_text(&mut session, "Shop");
    keys(&mut session, &[Key::Tab, Key::Tab, Key::Tab, Key::Enter]);
    let outcome = session.insert(Err(StoreError::Io("disk full".to_string())));
    assert_eq!(outcome, Err(StoreError::Io("disk full".to_string())));
    assert_eq!(session.mode(), InputMode::Submit);
    assert_eq!(session.buffer(Field::Title), "Shop");
    assert_eq!(session.passwords(), &two_records());
}

#[test]
fn next_and_previous_leave_other_modes_alone() {
    for mode in [InputMode::Normal, InputMode::Search, InputMode::List, InputMode::Delete] {
        assert_eq!(mode.next(), mode);
        assert_eq!(mode.previous(), mode);
    }
    assert_eq!(InputMode::Title.next(), InputMode::Username);
    assert_eq!(InputMode::Username.next(), InputMode::Password);
    assert_eq!(InputMode::Password.next(), InputMode::Submit);
    assert_eq!(InputMode::Submit.next(), InputMode::Submit);
    assert_eq!(InputMode::Submit.previous(), InputMode::Password);
    assert_eq!(InputMode::Password.previous(), InputMode::Username);
    assert_eq!(InputMode::Username.previous(), InputMode::Title);
    assert_eq!(InputMode::Title.previous(), InputMode::Title);
}
