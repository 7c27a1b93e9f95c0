use passmng::filter::filter_by_title;
use passmng::mode::InputMode;
use passmng::record::Password;
use passmng::session::PassMng;

fn record(id: usize, title: &str) -> Password {
    Password::new_with_id(id, title.to_string(), "user".to_string(), "secret".to_string())
}

fn records() -> Vec<Password> {
    vec![
        record(1, "Bank"),
        record(2, "bank"),
        record(3, "Mail"),
        record(4, "Ba"),
        record(5, "B"),
        record(6, "École"),
        record(7, "Bank"),
    ]
}

fn ids(list: &[Password]) -> Vec<usize> {
    list.iter().map(|r| r.id).collect()
}

#[test]
fn filter_keeps_the_titles_that_begin_with_the_text_in_order() {
    assert_eq!(ids(&filter_by_title(&records(), "Ba")), vec![1, 4, 7]);
    assert_eq!(ids(&filter_by_title(&records(), "Bank")), vec![1, 7]);
    assert_eq!(ids(&filter_by_title(&records(), "B")), vec![1, 4, 5, 7]);
}

#[test]
fn filter_copies_whole_records() {
    let found = filter_by_title(&records(), "Mail");
    assert_eq!(found, vec![record(3, "Mail")]);
}

#[test]
fn filter_tells_upper_from_lower_case() {
    assert_eq!(ids(&filter_by_title(&records(), "b")), vec![2]);
    assert_eq!(ids(&filter_by_title(&records(), "BA")), Vec::<usize>::new());
}

#[test]
fn filter_with_the_empty_text_keeps_everything() {
    assert_eq!(filter_by_title(&records(), ""), records());
}

#[test]
fn filter_with_a_text_longer_than_the_title_keeps_nothing_of_it() {
    assert_eq!(ids(&filter_by_title(&records(), "Banker")), Vec::<usize>::new());
}

#[test]
fn filter_matches_a_prefix_not_an_infix() {
    assert_eq!(ids(&filter_by_title(&records(), "an")), Vec::<usize>::new());
    assert_eq!(ids(&filter_by_title(&records(), "ail")), Vec::<usize>::new());
}

#[test]
fn filter_compares_whole_characters() {
    assert_eq!(ids(&filter_by_title(&records(), "É")), vec![6]);
    assert_eq!(ids(&filter_by_title(&records(), "E")), Vec::<usize>::new());
}

#[test]
fn filter_of_nothing_is_nothing() {
    assert_eq!(filter_by_title(&Vec::new(), "Ba"), Vec::new());
}

#[test]
fn searching_twice_gives_what_searching_once_gives() {
    let mut once = PassMng::new(records());
    once.update_search("Ba".to_string());
    let mut twice = PassMng::new(records());
    twice.update_search("Ba".to_string());
    twice.update_search("Ba".to_string());
    assert_eq!(once.search_list(), twice.search_list());
    assert_eq!(once.search_txt(), twice.search_txt());
    assert_eq!(once.selected(), twice.selected());
    assert_eq!(ids(twice.search_list()), vec![1, 4, 7]);
}

#[test]
fn a_fresh_session_has_an_empty_search_list_and_displays_everything() {
    let session = PassMng::new(records());
    assert_eq!(session.search_txt(), "");
    assert_eq!(session.search_list().len(), 0);
    assert_eq!(session.displayed(), &records());
}

#[test]
fn a_search_finds_a_record_inserted_since_the_last_search() {
    let mut session = PassMng::new(records());
    session.update_search("Ba".to_string());
    assert_eq!(ids(session.search_list()), vec![1, 4, 7]);
    for ch in "Basket".chars() {
        session.push_char(passmng::mode::Field::Title, ch);
    }
    session.insert(Ok(8)).unwrap();
    assert_eq!(ids(session.search_list()), vec![1, 4, 7]);
    session.update_search("Ba".to_string());
    assert_eq!(ids(session.search_list()), vec![1, 4, 7, 8]);
}

#[test]
fn search_on_a_current_session_changes_nothing() {
    let mut session = PassMng::new(records());
    session.update_search("Ba".to_string());
    session.move_down();
    session.move_down();
    session.search();
    assert_eq!(ids(session.search_list()), vec![1, 4, 7]);
    assert_eq!(session.selected(), Some(1));
    assert_eq!(session.search_txt(), "Ba");
}

#[test]
fn the_search_list_splits_the_records_by_prefix() {
    for text in ["", "B", "Ba", "Bank", "M", "Zz", "b"] {
        let mut session = PassMng::new(records());
        session.update_search(text.to_string());
        for found in session.search_list() {
            assert!(found.title.starts_with(text));
            assert!(session.passwords().contains(found));
        }
        for record in session.passwords() {
            if !session.search_list().contains(record) {
                assert!(!record.title.starts_with(text));
            }
        }
    }
}

#[test]
fn a_search_without_matches_displays_every_record() {
    let mut session = PassMng::new(records());
    session.update_search("Zz".to_string());
    assert_eq!(session.search_list().len(), 0);
    assert_eq!(session.displayed(), &records());
}

#[test]
fn a_search_moves_a_selection_beyond_the_list_to_its_last_position() {
    let mut session = PassMng::new(records());
    for _ in 0..7 {
        session.move_down();
    }
    assert_eq!(session.selected(), Some(6));
    session.update_search("Ba".to_string());
    assert_eq!(session.displayed().len(), 3);
    assert_eq!(session.selected(), Some(2));
}

#[test]
fn a_search_keeps_a_selection_that_still_fits() {
    let mut session = PassMng::new(records());
    session.move_down();
    session.move_down();
    session.update_search("Ba".to_string());
    assert_eq!(session.selected(), Some(1));
    session.deselect();
    session.update_search("B".to_string());
    assert_eq!(session.selected(), None);
}

#[test]
fn push_and_pop_search_edit_the_text_and_search() {
    let mut session = PassMng::new(records());
    session.change_mode(InputMode::Search);
    session.push_search('M');
    assert_eq!(session.search_txt(), "M");
    assert_eq!(ids(session.search_list()), vec![3]);
    session.push_search('a');
    assert_eq!(session.search_txt(), "Ma");
    assert_eq!(ids(session.search_list()), vec![3]);
    session.pop_search();
    session.pop_search();
    assert_eq!(session.search_txt(), "");
    assert_eq!(session.search_list(), &records());
    session.pop_search();
    assert_eq!(session.search_txt(), "");
    assert_eq!(session.search_list(), &records());
}
