use oa_notifier::item::Item;
use oa_notifier::poll::{announcement_order, filter_by_keywords};
use oa_notifier::style::{table_label_face, Face};
use oa_notifier::table::{
    clear_marks, fill_listing, fill_rows, item_row, known_titles, mark_matches, new_items, shift_rows, title_cell,
    update_table,
};

fn item(title: &str, is_top: bool) -> Item {
    Item {
        title: title.to_string(),
        time: format!("{}-time", title),
        source: format!("{}-src", title),
        href: format!("{}-href", title),
        is_top,
    }
}

fn row(cells: [&str; 5]) -> Vec<String> {
    cells.iter().map(|c| c.to_string()).collect()
}

fn blank_table(rows: usize) -> Vec<Vec<String>> {
    (0..rows).map(|_| row(["", "", "", "", ""])).collect()
}

#[test]
fn title_cell_marks_pinned_notices() {
    assert_eq!(title_cell(&item("放假", true)), "[置顶]放假");
    assert_eq!(title_cell(&item("放假", false)), "放假");
    assert_eq!(
        item_row(&item("a", false)),
        row(["a", "a-src", "a-time", "a-href", ""])
    );
}

#[test]
fn fill_writes_the_first_rows() {
    let mut t = blank_table(3);
    t[2] = row(["old", "x", "y", "z", "f"]);
    fill_rows(&mut t, &vec![item("a", true), item("b", false)]);
    assert_eq!(t[0], row(["[置顶]a", "a-src", "a-time", "a-href", ""]));
    assert_eq!(t[1], row(["b", "b-src", "b-time", "b-href", ""]));
    assert_eq!(t[2], row(["old", "x", "y", "z", "f"]));
}

#[test]
fn search_marks_matching_rows() {
    let mut t = vec![
        row(["招生通知", "教务处", "今天", "l0", "f"]),
        row(["会议", "招生办", "昨天", "l1", ""]),
        row(["讲座", "学院", "前天", "招生", "f"]),
    ];
    mark_matches(&mut t, "招生");
    assert_eq!(t[0][4], "f");
    assert_eq!(t[1][4], "f");
    assert_eq!(t[2][4], "");
    assert_eq!(t[2][3], "招生");
    mark_matches(&mut t, "");
    assert!(t.iter().all(|r| r[4].is_empty()));
}

#[test]
fn clearing_marks_keeps_the_rest() {
    let mut t = vec![row(["a", "b", "c", "d", "f"])];
    clear_marks(&mut t);
    assert_eq!(t[0], row(["a", "b", "c", "d", ""]));
}

#[test]
fn shift_moves_rows_down() {
    let mut t = vec![
        row(["r0", "s0", "t0", "l0", "f"]),
        row(["r1", "s1", "t1", "l1", "f"]),
        row(["r2", "s2", "t2", "l2", "f"]),
        row(["r3", "s3", "t3", "l3", "f"]),
    ];
    shift_rows(&mut t, 2, 1);
    assert_eq!(t[0], row(["r0", "s0", "t0", "l0", "f"]));
    assert_eq!(t[1], row(["r0", "s0", "t0", "l1", ""]));
    assert_eq!(t[2], row(["r1", "s1", "t1", "l2", ""]));
    assert_eq!(t[3], row(["r2", "s2", "t2", "l3", ""]));
}

#[test]
fn shift_of_a_short_table_does_nothing() {
    let mut t = vec![row(["r0", "s0", "t0", "l0", "f"])];
    shift_rows(&mut t, 3, 2);
    assert_eq!(t[0], row(["r0", "s0", "t0", "l0", "f"]));
}

#[test]
fn update_puts_the_news_on_top() {
    let mut t = vec![
        row(["old0", "s0", "t0", "l0", ""]),
        row(["old1", "s1", "t1", "l1", ""]),
        row(["old2", "s2", "t2", "l2", "f"]),
    ];
    let now = vec![item("new", false), item("old0", false)];
    update_table(&mut t, &now, 1);
    assert_eq!(t[0], row(["new", "new-src", "new-time", "new-href", ""]));
    assert_eq!(t[1], row(["old0", "old0-src", "old0-time", "old0-href", ""]));
    assert_eq!(t[2], row(["old1", "s1", "t1", "l2", ""]));
}

#[test]
fn new_items_are_those_not_shown() {
    let known = vec!["[置顶]放假".to_string(), "会议".to_string()];
    let now = vec![item("放假", true), item("讲座", false), item("会议", false), item("招生", true)];
    let fresh = new_items(&known, &now);
    assert_eq!(fresh, vec![item("讲座", false), item("招生", true)]);
    assert!(new_items(&known, &vec![]).is_empty());
}

#[test]
fn nothing_is_new_after_an_update() {
    let mut t = blank_table(4);
    let now = vec![item("甲", true), item("乙", false), item("丙", false)];
    let known = known_titles(&t, now.len());
    let k = new_items(&known, &now).len();
    assert_eq!(k, 3);
    update_table(&mut t, &now, 2);
    let known = known_titles(&t, now.len());
    assert!(new_items(&known, &now).is_empty());
}

#[test]
fn title_holding_the_pin_label_is_new_again() {
    let mut t = blank_table(1);
    let now = vec![item("[置顶]假的", false)];
    update_table(&mut t, &now, 0);
    let known: Vec<String> = t.iter().take(1).map(|r| r[0].clone()).collect();
    assert_eq!(new_items(&known, &now).len(), 1);
}

#[test]
fn no_keywords_let_everything_through() {
    let items = vec![item("a", false), item("b", true)];
    assert_eq!(filter_by_keywords(&items, "  \t", &vec![]), items);
    assert_eq!(filter_by_keywords(&items, "", &vec![]), items);
}

#[test]
fn keywords_select_notices() {
    let items = vec![item("招生简章", false), item("会议", false), item("讲座", false), item("x", false)];
    let contents = vec![
        vec![],
        vec!["关于就业的会议".to_string()],
        vec!["无关".to_string()],
        vec![],
    ];
    let kept = filter_by_keywords(&items, "招生 就业", &contents);
    assert_eq!(kept, vec![item("招生简章", false), item("会议", false)]);
    let by_source = filter_by_keywords(&items, "x-src", &contents);
    assert_eq!(by_source, vec![item("x", false)]);
}

#[test]
fn announcements_come_last_first() {
    let items = vec![item("a", false), item("b", false), item("c", false)];
    assert_eq!(
        announcement_order(&items),
        vec![item("c", false), item("b", false), item("a", false)]
    );
    assert!(announcement_order(&vec![]).is_empty());
}

#[test]
fn label_face_follows_the_last_notice() {
    assert_eq!(table_label_face(&vec![]), None);
    assert_eq!(table_label_face(&vec![item("a", false), item("b", true)]), Some(Face::Helvetica));
    assert_eq!(table_label_face(&vec![item("a", true), item("b", false)]), Some(Face::Times));
}

#[test]
fn listing_fill_keeps_marks() {
    let mut t = vec![row(["", "", "", "", "f"]), row(["o", "p", "q", "r", "f"])];
    fill_listing(&mut t, &vec![item("a", true)]);
    assert_eq!(t[0], row(["[置顶]a", "a-src", "a-time", "a-href", "f"]));
    assert_eq!(t[1], row(["o", "p", "q", "r", "f"]));
}

#[test]
fn known_titles_are_the_first_column() {
    let t = vec![row(["a", "1", "2", "3", ""]), row(["b", "", "", "", "f"]), row(["c", "", "", "", ""])];
    assert_eq!(known_titles(&t, 2), vec!["a".to_string(), "b".to_string()]);
    assert!(known_titles(&t, 0).is_empty());
}
