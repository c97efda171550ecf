use todomvc::model::Model;
use todomvc::todo::Filter;

const A: u128 = 10;
const B: u128 = 20;

fn add(m: &mut Model, id: u128, title: &str, completed: bool) {
    m.set_draft_title(title.to_owned());
    assert!(m.commit_draft_with_id(id));
    if completed {
        m.toggle_todo(id);
    }
}

fn car_and_bills() -> Model {
    let mut m = Model::new();
    add(&mut m, B, "pay bills", true);
    add(&mut m, A, "wash car", false);
    m
}

fn snapshot(m: &Model) -> Vec<(u128, String, bool)> {
    m.ids()
        .into_iter()
        .map(|id| {
            let t = m.get(id).unwrap();
            assert_eq!(t.id, id);
            (id, t.title.clone(), t.completed)
        })
        .collect()
}

fn editing(m: &Model) -> Option<(u128, String)> {
    m.editing().as_ref().map(|s| (s.id, s.title.clone()))
}

#[test]
fn new_model_is_empty() {
    let m = Model::new();
    assert!(m.is_empty());
    assert_eq!(m.len(), 0);
    assert_eq!(m.draft_title(), "");
    assert!(m.editing().is_none());
    assert_eq!(m.filter(), Filter::All);
    assert!(m.ids().is_empty());
    assert!(m.visible_todos().is_empty());
    assert_eq!(m.active_count(), 0);
    assert!(m.all_completed());
}

#[test]
fn set_draft_title_replaces_without_validation() {
    let mut m = Model::new();
    m.set_draft_title("  anything ".to_owned());
    assert_eq!(m.draft_title(), "  anything ");
    m.set_draft_title(String::new());
    assert_eq!(m.draft_title(), "");
    assert!(m.is_empty());
}

#[test]
fn commit_of_empty_draft_changes_nothing() {
    let mut m = car_and_bills();
    let before = snapshot(&m);
    m.set_draft_title(String::new());
    assert_eq!(m.commit_draft(), None);
    assert_eq!(snapshot(&m), before);
    assert_eq!(m.draft_title(), "");
}

#[test]
fn commit_of_blank_draft_changes_nothing() {
    let mut m = car_and_bills();
    let before = snapshot(&m);
    m.set_draft_title("   ".to_owned());
    assert_eq!(m.commit_draft(), None);
    assert!(!m.commit_draft_with_id(77));
    assert_eq!(snapshot(&m), before);
    assert_eq!(m.draft_title(), "   ");
}

#[test]
fn commit_adds_exactly_one_active_item() {
    let mut m = Model::new();
    m.set_draft_title("Buy milk".to_owned());
    let id = m.commit_draft().expect("an item is made");
    assert_eq!(snapshot(&m), vec![(id, "Buy milk".to_owned(), false)]);
    assert_eq!(m.draft_title(), "");
    assert_eq!(m.len(), 1);
}

#[test]
fn commit_trims_the_title() {
    let mut m = Model::new();
    m.set_draft_title("  Buy milk \t".to_owned());
    assert!(m.commit_draft_with_id(5));
    assert_eq!(snapshot(&m), vec![(5, "Buy milk".to_owned(), false)]);
}

#[test]
fn commit_makes_distinct_identifiers() {
    let mut m = Model::new();
    m.set_draft_title("one".to_owned());
    let first = m.commit_draft().unwrap();
    m.set_draft_title("two".to_owned());
    let second = m.commit_draft().unwrap();
    assert_ne!(first, second);
    assert_ne!(first, 0);
    assert_eq!(m.len(), 2);
    assert_eq!(m.get(first).unwrap().title, "one");
    assert_eq!(m.get(second).unwrap().title, "two");
}

#[test]
fn commit_under_a_taken_identifier_changes_nothing() {
    let mut m = car_and_bills();
    let before = snapshot(&m);
    m.set_draft_title("again".to_owned());
    assert!(!m.commit_draft_with_id(A));
    assert_eq!(snapshot(&m), before);
    assert_eq!(m.draft_title(), "again");
}

#[test]
fn toggle_follows_parity() {
    let mut m = car_and_bills();
    for n in 1..=7 {
        m.toggle_todo(A);
        assert_eq!(m.get(A).unwrap().completed, n % 2 == 1);
        assert!(m.get(B).unwrap().completed);
        assert_eq!(m.get(A).unwrap().title, "wash car");
    }
    m.toggle_todo(B);
    m.toggle_todo(A);
    m.toggle_todo(B);
    m.toggle_todo(B);
    assert_eq!(
        snapshot(&m),
        vec![(A, "wash car".to_owned(), false), (B, "pay bills".to_owned(), false)]
    );
}

#[test]
fn toggle_of_unknown_identifier_changes_nothing() {
    let mut m = car_and_bills();
    let before = snapshot(&m);
    m.toggle_todo(999);
    assert_eq!(snapshot(&m), before);
}

#[test]
fn remove_of_unknown_identifier_changes_nothing() {
    let mut m = car_and_bills();
    m.select_for_editing(Some(A));
    let before = snapshot(&m);
    m.remove_todo(999);
    assert_eq!(snapshot(&m), before);
    assert_eq!(editing(&m), Some((A, "wash car".to_owned())));
}

#[test]
fn remove_takes_the_item_and_keeps_another_session() {
    let mut m = car_and_bills();
    m.select_for_editing(Some(A));
    m.remove_todo(B);
    assert_eq!(snapshot(&m), vec![(A, "wash car".to_owned(), false)]);
    assert_eq!(editing(&m), Some((A, "wash car".to_owned())));
}

#[test]
fn remove_of_the_edited_item_ends_the_session() {
    let mut m = car_and_bills();
    m.select_for_editing(Some(A));
    m.remove_todo(A);
    assert_eq!(snapshot(&m), vec![(B, "pay bills".to_owned(), true)]);
    assert_eq!(editing(&m), None);
}

#[test]
fn toggle_all_on_mixed_flags_completes_then_activates() {
    let mut m = car_and_bills();
    m.toggle_all();
    assert_eq!(
        snapshot(&m),
        vec![(A, "wash car".to_owned(), true), (B, "pay bills".to_owned(), true)]
    );
    assert!(m.all_completed());
    m.toggle_all();
    assert_eq!(
        snapshot(&m),
        vec![(A, "wash car".to_owned(), false), (B, "pay bills".to_owned(), false)]
    );
}

#[test]
fn toggle_all_twice_on_uniform_flags_gives_them_back() {
    let mut m = car_and_bills();
    m.toggle_todo(A);
    let all_done = snapshot(&m);
    m.toggle_all();
    assert_eq!(m.active_count(), 2);
    m.toggle_all();
    assert_eq!(snapshot(&m), all_done);

    let mut m = car_and_bills();
    m.toggle_todo(B);
    let none_done = snapshot(&m);
    m.toggle_all();
    assert_eq!(m.active_count(), 0);
    m.toggle_all();
    assert_eq!(snapshot(&m), none_done);
}

#[test]
fn toggle_all_on_empty_list_changes_nothing() {
    let mut m = Model::new();
    m.toggle_all();
    assert!(m.is_empty());
}

#[test]
fn clear_completed_keeps_the_active_item() {
    let mut m = car_and_bills();
    m.clear_completed();
    assert_eq!(snapshot(&m), vec![(A, "wash car".to_owned(), false)]);
}

#[test]
fn clear_completed_leaves_no_completed_item() {
    let mut m = Model::new();
    add(&mut m, 1, "one", true);
    add(&mut m, 2, "two", false);
    add(&mut m, 3, "three", true);
    add(&mut m, 4, "four", false);
    m.clear_completed();
    assert_eq!(snapshot(&m), vec![(2, "two".to_owned(), false), (4, "four".to_owned(), false)]);
    m.clear_completed();
    assert_eq!(m.len(), 2);
}

#[test]
fn clear_completed_ends_a_session_on_a_cleared_item() {
    let mut m = car_and_bills();
    m.select_for_editing(Some(B));
    m.clear_completed();
    assert_eq!(editing(&m), None);

    let mut m = car_and_bills();
    m.select_for_editing(Some(A));
    m.clear_completed();
    assert_eq!(editing(&m), Some((A, "wash car".to_owned())));
}

#[test]
fn select_starts_from_the_current_title() {
    let mut m = car_and_bills();
    m.select_for_editing(Some(B));
    assert_eq!(editing(&m), Some((B, "pay bills".to_owned())));
    m.select_for_editing(Some(A));
    assert_eq!(editing(&m), Some((A, "wash car".to_owned())));
    m.select_for_editing(None);
    assert_eq!(editing(&m), None);
}

#[test]
fn select_of_unknown_identifier_changes_nothing() {
    let mut m = car_and_bills();
    m.select_for_editing(Some(999));
    assert_eq!(editing(&m), None);
    m.select_for_editing(Some(A));
    m.update_editing_title("draft".to_owned());
    m.select_for_editing(Some(999));
    assert_eq!(editing(&m), Some((A, "draft".to_owned())));
}

#[test]
fn update_editing_title_without_session_changes_nothing() {
    let mut m = car_and_bills();
    let before = snapshot(&m);
    m.update_editing_title("lost".to_owned());
    assert_eq!(editing(&m), None);
    assert_eq!(snapshot(&m), before);
}

#[test]
fn edit_and_save_writes_the_title() {
    let mut m = car_and_bills();
    m.select_for_editing(Some(A));
    m.update_editing_title("wash the car".to_owned());
    assert_eq!(m.get(A).unwrap().title, "wash car");
    m.save_editing_session();
    assert_eq!(
        snapshot(&m),
        vec![(A, "wash the car".to_owned(), false), (B, "pay bills".to_owned(), true)]
    );
    assert_eq!(editing(&m), None);
}

#[test]
fn save_trims_and_keeps_the_flag() {
    let mut m = car_and_bills();
    m.select_for_editing(Some(B));
    m.update_editing_title("  pay all bills ".to_owned());
    m.save_editing_session();
    assert_eq!(m.get(B).unwrap().title, "pay all bills");
    assert!(m.get(B).unwrap().completed);
}

#[test]
fn save_of_blank_title_removes_the_item() {
    let mut m = car_and_bills();
    m.select_for_editing(Some(A));
    m.update_editing_title("  ".to_owned());
    m.save_editing_session();
    assert_eq!(snapshot(&m), vec![(B, "pay bills".to_owned(), true)]);
    assert_eq!(editing(&m), None);
}

#[test]
fn save_without_session_changes_nothing() {
    let mut m = car_and_bills();
    let before = snapshot(&m);
    m.save_editing_session();
    assert_eq!(snapshot(&m), before);
}

#[test]
fn filter_selects_what_is_shown() {
    let mut m = car_and_bills();
    add(&mut m, 15, "mow lawn", false);
    let titles = |m: &Model| -> Vec<String> {
        m.visible_todos().into_iter().map(|t| t.title).collect()
    };
    assert_eq!(titles(&m), vec!["wash car", "mow lawn", "pay bills"]);
    m.set_filter(Filter::Active);
    assert_eq!(m.filter(), Filter::Active);
    assert_eq!(titles(&m), vec!["wash car", "mow lawn"]);
    m.set_filter(Filter::Completed);
    assert_eq!(titles(&m), vec!["pay bills"]);
    assert_eq!(m.len(), 3);
    assert_eq!(m.shown_ids(Filter::All), vec![A, 15, B]);
    assert_eq!(m.shown_ids(Filter::Active), vec![A, 15]);
    assert_eq!(m.shown_ids(Filter::Completed), vec![B]);
}

#[test]
fn items_come_in_order_of_identifier() {
    let mut m = Model::new();
    for id in [7u128, 3, u128::MAX, 0, 5] {
        add(&mut m, id, "x", false);
    }
    assert_eq!(m.ids(), vec![0, 3, 5, 7, u128::MAX]);
}

#[test]
fn active_count_counts_what_is_left() {
    let mut m = car_and_bills();
    assert_eq!(m.active_count(), 1);
    assert!(!m.all_completed());
    m.toggle_todo(A);
    assert_eq!(m.active_count(), 0);
    assert!(m.all_completed());
    m.toggle_todo(B);
    m.toggle_todo(A);
    assert_eq!(m.active_count(), 2);
}

#[test]
fn mock_data_has_two_items_and_a_session() {
    let m = Model::new().add_mock_data_with(1, 2);
    assert_eq!(
        snapshot(&m),
        vec![(1, "I'm todo A".to_owned(), false), (2, "I'm todo B".to_owned(), true)]
    );
    assert_eq!(m.draft_title(), "I'm a new todo title.");
    assert_eq!(editing(&m), Some((2, "I'm better todo B".to_owned())));
}

#[test]
fn mock_data_under_one_identifier_keeps_the_second_item() {
    let m = Model::new().add_mock_data_with(4, 4);
    assert_eq!(snapshot(&m), vec![(4, "I'm todo B".to_owned(), true)]);
    assert_eq!(editing(&m), Some((4, "I'm better todo B".to_owned())));
}

#[test]
fn mock_data_with_made_identifiers() {
    let m = Model::new().add_mock_data();
    assert_eq!(m.len(), 2);
    assert_eq!(m.active_count(), 1);
    let (id, title) = editing(&m).unwrap();
    assert_eq!(title, "I'm better todo B");
    assert_eq!(m.get(id).unwrap().title, "I'm todo B");
}

#[test]
fn counts_split_the_list() {
    let mut m = car_and_bills();
    add(&mut m, 30, "mow lawn", true);
    assert_eq!(m.active_count(), 1);
    assert_eq!(m.completed_count(), 2);
    assert_eq!(m.active_count() + m.completed_count(), m.len());
    m.clear_completed();
    assert_eq!(m.completed_count(), 0);
    assert_eq!(m.active_count(), 1);
}

#[test]
fn is_editing_names_the_edited_item_only() {
    let mut m = car_and_bills();
    assert!(!m.is_editing(A));
    m.select_for_editing(Some(A));
    assert!(m.is_editing(A));
    assert!(!m.is_editing(B));
    m.save_editing_session();
    assert!(!m.is_editing(A));
}

#[test]
fn commit_on_an_empty_list_is_always_made() {
    for _ in 0..50 {
        let mut m = Model::new();
        m.set_draft_title("x".to_owned());
        assert!(m.commit_draft().is_some());
    }
}
