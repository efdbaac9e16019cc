use oa_notifier::actions::{
    click_reads_row, close_action, content_text, image_kind, image_window_title, is_menu_entry, menu_action,
    table_click, Button, ClickAction, CloseAction, ImageKind, MenuAction, MENU_ENTRIES,
};
use oa_notifier::item::{Item, VERSION};
use oa_notifier::table::title_cell;
use oa_notifier::style::{cell_style, header_style, row_marks, CellStyle, Face, Ink, Placement, Rgb};
use oa_notifier::update::{release_page_is_ok, update_decision, UpdateCheck};

fn rgb(r: u8, g: u8, b: u8) -> Rgb {
    Rgb { r, g, b }
}

#[test]
fn release_page_naming_this_version_is_up_to_date() {
    let page = Some(format!("xx@@first@@https://example.org/{}.zip@@second@@", VERSION));
    assert!(release_page_is_ok(&page));
    assert_eq!(update_decision(&page), UpdateCheck::UpToDate);
}

#[test]
fn newer_release_is_offered() {
    let page = Some("@@first@@https://example.org/9.9.9.zip@@second@@ @@third@@修复问题@@four@@".to_string());
    assert!(release_page_is_ok(&page));
    assert_eq!(
        update_decision(&page),
        UpdateCheck::NewVersion {
            url: "https://example.org/9.9.9.zip".to_string(),
            message: "有最新版，你要更新吗？修复问题".to_string(),
        }
    );
    let page = Some("@@first@@https://example.org/9.9.9.zip@@second@@".to_string());
    assert_eq!(
        update_decision(&page),
        UpdateCheck::NewVersion {
            url: "https://example.org/9.9.9.zip".to_string(),
            message: "有最新版，你要更新吗？".to_string(),
        }
    );
}

#[test]
fn unreadable_release_page_is_a_network_problem() {
    assert_eq!(update_decision(&None), UpdateCheck::NetworkProblem);
    assert_eq!(update_decision(&Some("<html></html>".to_string())), UpdateCheck::NetworkProblem);
    assert_eq!(update_decision(&Some("@@first@@abc".to_string())), UpdateCheck::NetworkProblem);
}

#[test]
fn misordered_release_page_is_detected() {
    assert!(!release_page_is_ok(&Some("@@second@@@@first@@".to_string())));
    assert!(!release_page_is_ok(&Some(
        "@@first@@u@@second@@@@four@@@@third@@".to_string()
    )));
    assert!(release_page_is_ok(&None));
}

#[test]
fn data_cells_are_painted() {
    let s = cell_style("今天", 3, 2, false, false, false).unwrap();
    assert_eq!(
        s,
        CellStyle {
            background: rgb(240, 248, 255),
            face: Face::TimesBold,
            size: 14,
            ink: Ink::Color(rgb(0x2A, 0x9D, 0x8F)),
            placement: Placement::Left,
        }
    );
    let s = cell_style("标题", 2, 0, true, true, true).unwrap();
    assert_eq!(
        s,
        CellStyle {
            background: rgb(201, 227, 251),
            face: Face::TimesBold,
            size: 15,
            ink: Ink::Red,
            placement: Placement::Center,
        }
    );
    let s = cell_style("教务处", 0, 1, false, true, false).unwrap();
    assert_eq!(s.background, rgb(255, 255, 255));
    assert_eq!(s.face, Face::Times);
    assert_eq!(s.ink, Ink::Color(rgb(39, 118, 197)));
    let s = cell_style("2023-01-01", -1, 2, false, false, false).unwrap();
    assert_eq!(s.background, rgb(255, 255, 255));
    assert_eq!(s.ink, Ink::Color(rgb(0x6D, 0x68, 0x75)));
    assert!(cell_style("l", 0, 3, false, false, false).is_none());
}

#[test]
fn headers_are_painted() {
    let h = header_style(0);
    assert_eq!(h.background, rgb(230, 240, 255));
    assert_eq!(h.ink, rgb(0, 32, 96));
    assert_eq!(h.face, Face::TimesBold);
    assert_eq!(h.size, 16);
    assert_eq!(h.placement, Placement::Center);
    assert_eq!(header_style(2).placement, Placement::Left);
}

#[test]
fn row_marks_read_pin_and_search() {
    assert_eq!(row_marks("[置顶]通知", "f"), (true, true));
    assert_eq!(row_marks("通知", ""), (false, false));
}

#[test]
fn menu_entries_are_dispatched() {
    for label in MENU_ENTRIES.split('|') {
        assert!(is_menu_entry(label));
    }
    assert_eq!(menu_action("刷新  "), MenuAction::Refresh);
    assert_eq!(menu_action("OA主页  "), MenuAction::OpenHome);
    assert_eq!(menu_action("过滤  "), MenuAction::Filter);
    assert_eq!(menu_action("搜索  "), MenuAction::Search);
    assert!(!is_menu_entry("搜索"));
}

#[test]
fn clicks_on_the_table() {
    assert_eq!(
        table_click(1, Button::Left, 0, "[置顶]放假", "校办", "https://x/1"),
        ClickAction::ShowContent {
            url: "https://x/1".to_string(),
            title: "[置顶]放假 : 校办".to_string(),
        }
    );
    assert_eq!(
        table_click(0, Button::Right, 1, "t", "校办", "https://x/1"),
        ClickAction::ClearMarks {
            open: Some(
                "https://oa.jlu.edu.cn/defaultroot/PortalInformation!jldxList.action?channelId=179577&orgname=校办"
                    .to_string()
            ),
        }
    );
    assert_eq!(
        table_click(0, Button::Right, 0, "t", "校办", "https://x/1"),
        ClickAction::ClearMarks { open: Some("https://x/1".to_string()) }
    );
    assert_eq!(
        table_click(0, Button::Left, 0, "t", "s", "l"),
        ClickAction::ClearMarks { open: None }
    );
    assert_eq!(table_click(2, Button::Left, 0, "t", "s", "l"), ClickAction::Nothing);
    assert_eq!(table_click(1, Button::Right, 0, "t", "s", "l"), ClickAction::Nothing);
}

#[test]
fn close_dialog_answers() {
    assert_eq!(close_action(Some(2)), CloseAction::Quit);
    assert_eq!(close_action(Some(1)), CloseAction::Hide);
    assert_eq!(close_action(Some(0)), CloseAction::Stay);
    assert_eq!(close_action(None), CloseAction::Stay);
}

#[test]
fn notice_windows() {
    assert_eq!(image_kind("https://x/a.png"), Some(ImageKind::Png));
    assert_eq!(image_kind("https://x/a.jpg"), Some(ImageKind::Jpeg));
    assert_eq!(image_kind("https://x/png.jpg"), Some(ImageKind::Png));
    assert_eq!(image_kind("https://x/a.gif"), None);
    assert_eq!(image_window_title("通知", 0), "通知-img[1]");
    assert_eq!(image_window_title("通知", 11), "通知-img[12]");
    assert_eq!(
        content_text(&vec!["a\n".to_string(), "b".to_string()]),
        "a\nb"
    );
}

#[test]
fn pinned_rows_look_pinned() {
    let it = Item {
        title: "放假".to_string(),
        time: String::new(),
        source: String::new(),
        href: String::new(),
        is_top: true,
    };
    assert!(row_marks(&title_cell(&it), "").0);
}

#[test]
fn list_page_addresses_are_distinct() {
    let urls = oa_notifier::html::page_urls(25);
    for i in 0..urls.len() {
        for j in 0..i {
            assert_ne!(urls[i], urls[j]);
        }
    }
}

#[test]
fn menu_path_gives_the_four_entries() {
    let entries: Vec<&str> = MENU_ENTRIES.split('|').collect();
    assert_eq!(entries, vec!["OA主页  ", "搜索  ", "过滤  ", "刷新  "]);
}

#[test]
fn only_some_clicks_read_the_row() {
    assert!(click_reads_row(1, Button::Left));
    assert!(click_reads_row(0, Button::Right));
    assert!(!click_reads_row(0, Button::Left));
    assert!(!click_reads_row(1, Button::Right));
    assert!(!click_reads_row(2, Button::Left));
}
