use podfetch::entry::{Entry, MediaGroup};
use podfetch::listing::{compose_label, item_label, item_labels, panel_title};
use podfetch::selection::SelectionStore;

fn entry(title: Option<&str>, published: Option<i64>, sources: Option<Vec<Option<&str>>>) -> Entry {
    Entry {
        title: title.map(String::from),
        published,
        media: match sources {
            Some(s) => vec![MediaGroup { sources: s.into_iter().map(|u| u.map(String::from)).collect() }],
            None => Vec::new(),
        },
    }
}

#[test]
fn label_is_composed_of_index_title_and_day() {
    assert_eq!(compose_label(3, Some("Monday"), Some("15 May 2015")), "3: Monday (15 May 2015)");
    assert_eq!(compose_label(0, None, None), "0: Untitled Episode (Unknown date)");
    assert_eq!(compose_label(41, Some(""), None), "41:  (Unknown date)");
    assert_eq!(compose_label(120, None, Some("x")), "120: Untitled Episode (x)");
}

#[test]
fn label_writes_the_day_of_publication() {
    let e = entry(Some("Ride Home"), Some(1431648000), None);
    assert_eq!(item_label(2, &e), "2: Ride Home (15 May 2015)");
}

#[test]
fn label_pads_the_day_and_ignores_the_time_of_day() {
    assert_eq!(item_label(0, &entry(Some("t"), Some(0), None)), "0: t (01 Jan 1970)");
    assert_eq!(item_label(0, &entry(Some("t"), Some(86_399), None)), "0: t (01 Jan 1970)");
    assert_eq!(item_label(0, &entry(Some("t"), Some(86_400), None)), "0: t (02 Jan 1970)");
    assert_eq!(item_label(0, &entry(Some("t"), Some(-1), None)), "0: t (31 Dec 1969)");
    assert_eq!(item_label(0, &entry(Some("t"), Some(951_782_400), None)), "0: t (29 Feb 2000)");
}

#[test]
fn label_of_an_entry_without_title_or_date() {
    assert_eq!(item_label(9, &entry(None, None, None)), "9: Untitled Episode (Unknown date)");
}

#[test]
fn label_of_an_instant_outside_the_calendar() {
    assert_eq!(item_label(1, &entry(Some("t"), Some(i64::MAX), None)), "1: t (Unknown date)");
    assert_eq!(item_label(1, &entry(Some("t"), Some(i64::MIN), None)), "1: t (Unknown date)");
}

#[test]
fn labels_follow_the_order_of_the_list() {
    let store = SelectionStore::new(vec![
        entry(Some("a"), Some(1431648000), None),
        entry(None, None, None),
        entry(Some("c"), Some(0), None),
    ]);
    assert_eq!(
        item_labels(&store),
        vec![
            String::from("0: a (15 May 2015)"),
            String::from("1: Untitled Episode (Unknown date)"),
            String::from("2: c (01 Jan 1970)"),
        ]
    );
    assert!(item_labels(&SelectionStore::new(Vec::new())).is_empty());
}

#[test]
fn panel_title_names_the_destination_file() {
    let mut store = SelectionStore::new(vec![
        entry(Some("A/B: Test?"), None, Some(vec![Some("http://example.org/1")])),
        entry(None, None, Some(vec![None])),
        entry(Some("bare"), None, None),
        entry(Some("hollow"), None, Some(Vec::new())),
    ]);
    assert_eq!(panel_title(&store), "A_B_ Test_.mp3");
    store.move_next();
    assert_eq!(panel_title(&store), "episode_1.mp3");
    store.move_next();
    assert_eq!(panel_title(&store), "No media found");
    store.move_next();
    assert_eq!(panel_title(&store), "No media found");
}

#[test]
fn panel_title_of_an_empty_list() {
    assert_eq!(panel_title(&SelectionStore::new(Vec::new())), "No episode selected");
}
