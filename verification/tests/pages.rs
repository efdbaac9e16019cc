use oa_notifier::html::{
    choose_block, get_content, get_table, get_title_page, make_item, normalize_content, page_urls,
    try_get_content, try_get_title_page, ScrapeError, ITEMS_PER_PAGE, PAGES,
};
use oa_notifier::item::Item;

fn item(n: usize) -> Item {
    Item {
        title: format!("t{}", n),
        time: String::from("2023-05-21"),
        source: String::from("s"),
        href: format!("h{}", n),
        is_top: false,
    }
}

const LIST_PAGE: &str = r#"<html><body>
<DIV class="li rel"><a class="font14" href="PortalInformation!getInformation.action?id=1">通知&nbsp;一</a><a class="column">教务处</a><span class="time">2023-05-21&nbsp;</span></DIV>
<DIV class="li rel"><a class="font14" href="x?id=2"><font class="red">[置顶]</font>重要通知</a><a class="column">校办</a><span class="time">今天</span></DIV>
<div class="other"><a class="font14" href="ignored">不是通知</a></div>
</body></html>"#;

#[test]
fn list_page_gives_its_notices() {
    let items = get_title_page(LIST_PAGE).unwrap();
    assert_eq!(items.len(), 2);
    assert_eq!(items[0].title, "通知一");
    assert!(!items[0].is_top);
    assert_eq!(
        items[0].href,
        "https://oa.jlu.edu.cn/defaultroot/PortalInformation!getInformation.action?id=1"
    );
    assert_eq!(items[0].source, "教务处");
    assert_eq!(items[0].time, "2023-05-21");
    assert_eq!(items[1].title, "重要通知");
    assert!(items[1].is_top);
    assert_eq!(items[1].href, "https://oa.jlu.edu.cn/defaultroot/x?id=2");
    assert_eq!(items[1].source, "校办");
    assert_eq!(items[1].time, "今天");
}

#[test]
fn empty_list_page_gives_nothing() {
    assert!(get_title_page("").is_none());
    assert_eq!(try_get_title_page(""), Ok(None));
}

#[test]
fn list_page_without_notices_gives_none_of_them() {
    assert_eq!(get_title_page("<html><body><p>维护中</p></body></html>"), Some(vec![]));
}

#[test]
fn incomplete_row_is_reported() {
    let page = r#"<DIV class="li rel"><a class="font14" href="a">标题</a><a class="column">处</a></DIV>"#;
    assert_eq!(try_get_title_page(page), Err(ScrapeError::IncompleteRow));
    let page = r#"<DIV class="li rel"><a class="font14">标题</a><a class="column">处</a><span class="time">t</span></DIV>"#;
    assert_eq!(try_get_title_page(page), Err(ScrapeError::IncompleteRow));
}

#[test]
fn checked_list_page_agrees() {
    assert_eq!(try_get_title_page(LIST_PAGE), Ok(get_title_page(LIST_PAGE)));
}

#[test]
fn item_is_cleaned() {
    let it = make_item(
        "<font class=\"red\">[置顶]</font>关于&nbsp;放假",
        "a.action?id=9",
        "人事处",
        "&nbsp;2023-06-01",
    );
    assert_eq!(it.title, "关于放假");
    assert!(it.is_top);
    assert_eq!(it.href, "https://oa.jlu.edu.cn/defaultroot/a.action?id=9");
    assert_eq!(it.source, "人事处");
    assert_eq!(it.time, "2023-06-01");
    let shared = make_item("Shared", "b.jsp", "S", "T");
    assert!(shared.is_top);
    assert_eq!(shared.title, "Shared");
    let red = make_item("<font class=\"red\">紧急</font>", "b", "c", "d");
    assert!(red.is_top);
    assert_eq!(red.title, "<font class=\"red\">紧急</font>");
    let plain = make_item("普通", "b", "c", "d");
    assert!(!plain.is_top);
    assert_eq!(plain.title, "普通");
}

const NOTICE_PAGE: &str = "<html><body><div class=\"content_font fontsize immmge\"><p>第一段<br>第二行</p><p>附件\u{2002}说明<img src=\"img/a.png\"></p></div></body></html>";

#[test]
fn notice_page_gives_text_and_images() {
    let (texts, images) = get_content(NOTICE_PAGE).unwrap();
    assert_eq!(images, vec!["https://oa.jlu.edu.cn/img/a.png".to_string()]);
    let joined: String = texts.concat();
    assert!(joined.contains("第一段\n第二行"));
    assert!(joined.contains("附件  说明"));
    assert!(!joined.contains('\u{2002}'));
}

#[test]
fn plain_body_block_is_the_fallback() {
    let page = "<div class=\"content_font\">正文<img src=\"b.jpg\"><img src=\"c.png\"></div>";
    let (texts, images) = get_content(page).unwrap();
    assert_eq!(texts, vec!["正文".to_string()]);
    assert_eq!(
        images,
        vec!["https://oa.jlu.edu.cn/b.jpg".to_string(), "https://oa.jlu.edu.cn/c.png".to_string()]
    );
}

#[test]
fn empty_notice_page_gives_nothing() {
    assert!(get_content("").is_none());
    assert_eq!(try_get_content(""), Ok(None));
}

#[test]
fn missing_body_is_reported() {
    assert_eq!(try_get_content("<p>404</p>"), Err(ScrapeError::MissingContent));
}

#[test]
fn image_without_address_is_reported() {
    let page = "<div class=\"content_font\">x<img alt=\"y\"></div>";
    assert_eq!(try_get_content(page), Err(ScrapeError::ImageWithoutSource));
}

#[test]
fn checked_notice_page_agrees() {
    assert_eq!(try_get_content(NOTICE_PAGE), Ok(get_content(NOTICE_PAGE)));
}

#[test]
fn body_is_normalised() {
    assert_eq!(
        normalize_content("a<br>b</p>c\u{2002}d"),
        "a\nb</p>\nc  d"
    );
}

#[test]
fn list_page_addresses() {
    let urls = page_urls(PAGES);
    assert_eq!(urls.len(), 10);
    assert_eq!(
        urls[0],
        "https://oa.jlu.edu.cn/defaultroot/PortalInformation!jldxList.action?1=1&channelId=179577&startPage=1"
    );
    assert!(urls[9].ends_with("startPage=10"));
    assert!(page_urls(0).is_empty());
}

#[test]
fn table_is_assembled_from_complete_pages() {
    let pages: Vec<Vec<Item>> = (0..3)
        .map(|p| (0..ITEMS_PER_PAGE).map(|i| item(p * 100 + i)).collect())
        .collect();
    let mut vector = vec![item(999)];
    assert!(get_table(&mut vector, &pages));
    assert_eq!(vector.len(), 3 * ITEMS_PER_PAGE);
    assert_eq!(vector[0], item(0));
    assert_eq!(vector[ITEMS_PER_PAGE], item(100));
    assert_eq!(vector[3 * ITEMS_PER_PAGE - 1], item(229));
}

#[test]
fn short_page_stops_the_table() {
    let pages: Vec<Vec<Item>> = vec![
        (0..ITEMS_PER_PAGE).map(item).collect(),
        (0..5).map(|i| item(100 + i)).collect(),
        (0..ITEMS_PER_PAGE).map(|i| item(200 + i)).collect(),
    ];
    let mut vector = vec![item(999)];
    assert!(!get_table(&mut vector, &pages));
    assert_eq!(vector.len(), ITEMS_PER_PAGE);
    assert_eq!(vector[ITEMS_PER_PAGE - 1], item(ITEMS_PER_PAGE - 1));
}

#[test]
fn no_pages_give_an_empty_table() {
    let mut vector = vec![item(1)];
    assert!(get_table(&mut vector, &vec![]));
    assert!(vector.is_empty());
}

#[test]
fn title_mentioning_red_is_pinned() {
    let page = r#"<div class="li rel"><a class="font14" href="b.jsp">Shared</a><a class="column">S</a><span class="time">T</span></div>"#;
    let items = get_title_page(page).unwrap();
    assert_eq!(
        items,
        vec![Item {
            title: "Shared".into(),
            time: "T".into(),
            source: "S".into(),
            href: "https://oa.jlu.edu.cn/defaultroot/b.jsp".into(),
            is_top: true,
        }]
    );
}

#[test]
fn inner_html_keeps_attribute_order() {
    let page = r#"<DIV class="li rel"><a class="font14" href="x"><span id="a" class="b" title="c">T</span></a><a class="column">S</a><span class="time">t</span></DIV>"#;
    let first = get_title_page(page).unwrap();
    for _ in 0..20 {
        assert_eq!(get_title_page(page).unwrap(), first);
    }
    assert_eq!(first[0].title, r#"<span id="a" class="b" title="c">T</span>"#);
}

#[test]
fn usual_body_block_comes_first() {
    let usual = vec!["u1".to_string(), "u2".to_string()];
    let plain = vec!["p1".to_string()];
    assert_eq!(choose_block(&usual, &plain), "u1");
    assert_eq!(choose_block(&vec![], &plain), "p1");
}
