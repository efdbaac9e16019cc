//! What the window does on the user's input: the menu, clicks on the
//! notice table, closing the window, and the windows that show a notice.
use vstd::prelude::*;
use crate::text::{concat_str, contains, contains_str, decimal, decimal_string, same_text, views};

verus! {

/// The entries of the menu bar, in the toolkit's path syntax.
pub const MENU_ENTRIES: &'static str = "OA主页  |搜索  |过滤  |刷新  ";

/// The menu entry that opens the portal's home page.
pub const HOME_LABEL: &'static str = "OA主页  ";

/// The menu entry that searches the table.
pub const SEARCH_LABEL: &'static str = "搜索  ";

/// The menu entry that sets the notification keywords.
pub const FILTER_LABEL: &'static str = "过滤  ";

/// The menu entry that reloads the table.
pub const REFRESH_LABEL: &'static str = "刷新  ";

/// The portal's list of notices.
pub const HOME_URL: &'static str =
    "https://oa.jlu.edu.cn/defaultroot/PortalInformation!jldxList.action?channelId=179577";

/// The portal's list of one department's notices, up to the department.
pub const DEPARTMENT_URL_PREFIX: &'static str =
    "https://oa.jlu.edu.cn/defaultroot/PortalInformation!jldxList.action?channelId=179577&orgname=";

/// What separates a notice's title from its department in a window title.
pub const TITLE_SEPARATOR: &'static str = " : ";

/// What an image window's title puts after the notice's title.
pub const IMAGE_TITLE_OPEN: &'static str = "-img[";

/// What closes an image window's title.
pub const IMAGE_TITLE_CLOSE: &'static str = "]";

/// What betrays a PNG image's address.
pub const PNG_HINT: &'static str = "png";

/// What betrays a JPEG image's address.
pub const JPEG_HINT: &'static str = "jpg";

/// What a menu entry does.
#[derive(Clone, Copy, Debug, PartialEq, Eq, Structural)]
pub enum MenuAction {
    /// Open the portal's list in the browser.
    OpenHome,
    /// Search the table.
    Search,
    /// Ask for the notification keywords.
    Filter,
    /// Reload the table.
    Refresh,
}

/// A mouse button.
#[derive(Clone, Copy, Debug, PartialEq, Eq, Structural)]
pub enum Button {
    Left,
    Middle,
    Right,
    Other,
}

/// What a click on the notice table does.
#[derive(Debug, PartialEq, Eq)]
pub enum ClickAction {
    /// Show the notice at `url` in a window titled `title`.
    ShowContent { url: String, title: String },
    /// Empty every search mark, then open `open` in the browser, if any.
    ClearMarks { open: Option<String> },
    /// Nothing.
    Nothing,
}

/// What answering the close dialog does.
#[derive(Clone, Copy, Debug, PartialEq, Eq, Structural)]
pub enum CloseAction {
    /// Keep the window.
    Stay,
    /// Hide the window to the tray.
    Hide,
    /// Quit the program.
    Quit,
}

/// The kind of an image shown beside a notice.
#[derive(Clone, Copy, Debug, PartialEq, Eq, Structural)]
pub enum ImageKind {
    Png,
    Jpeg,
}

/// The entries that the toolkit makes of a menu path, given the entry `cur`
/// that is already under way: the path is cut at each `|`.
pub open spec fn pieces_from(s: Seq<char>, cur: Seq<char>) -> Seq<Seq<char>>
    decreases s.len(),
{
    if s.len() == 0 {
        seq![cur]
    } else if s[0] == '|' {
        seq![cur] + pieces_from(s.drop_first(), Seq::<char>::empty())
    } else {
        pieces_from(s.drop_first(), cur.push(s[0]))
    }
}

/// The entries of the menu built from the path `entries`.
pub open spec fn menu_items(entries: Seq<char>) -> Seq<Seq<char>> {
    pieces_from(entries, Seq::<char>::empty())
}

/// `label` is one of the menu's entries.
pub open spec fn is_menu_label(label: Seq<char>) -> bool {
    label == HOME_LABEL@ || label == SEARCH_LABEL@ || label == FILTER_LABEL@ || label
        == REFRESH_LABEL@
}

/// What the menu entry `label` does.
pub open spec fn menu_action_of(label: Seq<char>) -> MenuAction {
    if label == REFRESH_LABEL@ {
        MenuAction::Refresh
    } else if label == HOME_LABEL@ {
        MenuAction::OpenHome
    } else if label == FILTER_LABEL@ {
        MenuAction::Filter
    } else {
        MenuAction::Search
    }
}

/// Whether `label` is one of the menu's entries.
pub fn is_menu_entry(label: &str) -> (b: bool)
    ensures
        b == is_menu_label(label@),
{
    same_text(label, HOME_LABEL) || same_text(label, SEARCH_LABEL) || same_text(label, FILTER_LABEL)
        || same_text(label, REFRESH_LABEL)
}

/// What the menu entry `label` does.
pub fn menu_action(label: &str) -> (a: MenuAction)
    requires
        is_menu_label(label@),
    ensures
        a == menu_action_of(label@),
{
    if same_text(label, REFRESH_LABEL) {
        MenuAction::Refresh
    } else if same_text(label, HOME_LABEL) {
        MenuAction::OpenHome
    } else if same_text(label, FILTER_LABEL) {
        MenuAction::Filter
    } else {
        MenuAction::Search
    }
}

/// The address of the list of one department's notices.
pub open spec fn department_url(department: Seq<char>) -> Seq<char> {
    DEPARTMENT_URL_PREFIX@ + department
}

/// `a` is what a click does. `clicks` is the toolkit's count of repeated
/// clicks: 0 for a single click, 1 for a double click. A double left click
/// shows the notice; a single click empties the search marks, and with the
/// right button also opens the department's list (department column) or the
/// notice (other columns).
pub open spec fn is_click_action(
    clicks: i32,
    button: Button,
    col: i32,
    title: Seq<char>,
    department: Seq<char>,
    link: Seq<char>,
    a: ClickAction,
) -> bool {
    if clicks == 1 && button == Button::Left {
        match a {
            ClickAction::ShowContent { url, title: t } => url@ == link && t@ == title
                + TITLE_SEPARATOR@ + department,
            _ => false,
        }
    } else if clicks == 0 {
        match a {
            ClickAction::ClearMarks { open } => if button == Button::Right {
                match open {
                    Some(u) => u@ == if col == 1 {
                        department_url(department)
                    } else {
                        link
                    },
                    None => false,
                }
            } else {
                open is None
            },
            _ => false,
        }
    } else {
        a is Nothing
    }
}

/// Whether what a click does depends on the cells of the clicked row: a
/// double left click and a single right click read them; other clicks do
/// not.
pub fn click_reads_row(clicks: i32, button: Button) -> (b: bool)
    ensures
        b == ((clicks == 1 && button == Button::Left) || (clicks == 0 && button == Button::Right)),
{
    (clicks == 1 && button == Button::Left) || (clicks == 0 && button == Button::Right)
}

/// What a click on the table does; `title`, `department` and `link` are the
/// cells of the clicked row.
pub fn table_click(
    clicks: i32,
    button: Button,
    col: i32,
    title: &str,
    department: &str,
    link: &str,
) -> (a: ClickAction)
    ensures
        is_click_action(clicks, button, col, title@, department@, link@, a),
{
    if clicks == 1 && button == Button::Left {
        let head = concat_str(title, TITLE_SEPARATOR);
        let t = concat_str(head.as_str(), department);
        ClickAction::ShowContent { url: link.to_owned(), title: t }
    } else if clicks == 0 {
        let open = if button == Button::Right {
            if col == 1 {
                Some(concat_str(DEPARTMENT_URL_PREFIX, department))
            } else {
                Some(link.to_owned())
            }
        } else {
            None
        };
        ClickAction::ClearMarks { open }
    } else {
        ClickAction::Nothing
    }
}

/// What answering the close dialog with `choice` does: the third button
/// quits, the second hides, anything else keeps the window.
pub fn close_action(choice: Option<i32>) -> (a: CloseAction)
    ensures
        a == match choice {
            Some(2) => CloseAction::Quit,
            Some(1) => CloseAction::Hide,
            _ => CloseAction::Stay,
        },
{
    match choice {
        Some(2) => CloseAction::Quit,
        Some(1) => CloseAction::Hide,
        _ => CloseAction::Stay,
    }
}

/// The kind of the image at `url`: PNG if its address mentions `png`, else
/// JPEG if it mentions `jpg`; other images are not shown.
pub fn image_kind(url: &str) -> (k: Option<ImageKind>)
    ensures
        k == if contains(url@, PNG_HINT@) {
            Some(ImageKind::Png)
        } else if contains(url@, JPEG_HINT@) {
            Some(ImageKind::Jpeg)
        } else {
            None
        },
{
    if contains_str(url, PNG_HINT) {
        Some(ImageKind::Png)
    } else if contains_str(url, JPEG_HINT) {
        Some(ImageKind::Jpeg)
    } else {
        None
    }
}

/// The title of the window of image `index` (counted from 0) of a notice.
pub fn image_window_title(title: &str, index: u64) -> (r: String)
    requires
        index < u64::MAX,
    ensures
        r@ == title@ + IMAGE_TITLE_OPEN@ + decimal((index + 1) as nat) + IMAGE_TITLE_CLOSE@,
{
    let head = concat_str(title, IMAGE_TITLE_OPEN);
    let number = decimal_string(index + 1);
    let body = concat_str(head.as_str(), number.as_str());
    concat_str(body.as_str(), IMAGE_TITLE_CLOSE)
}

/// The lines of a notice's text, one after the other, as the text window
/// shows them.
pub open spec fn joined_text(lines: Seq<Seq<char>>) -> Seq<char>
    decreases lines.len(),
{
    if lines.len() == 0 {
        Seq::<char>::empty()
    } else {
        joined_text(lines.drop_last()) + lines.last()
    }
}

/// The text that the window of a notice shows.
pub fn content_text(lines: &Vec<String>) -> (r: String)
    ensures
        r@ == joined_text(views(lines@)),
{
    let mut r = String::new();
    let n = lines.len();
    for i in 0..n
        invariant
            n == lines@.len(),
            r@ == joined_text(views(lines@).take(i as int)),
    {
        let ghost pre = views(lines@).take(i + 1);
        assert(pre.drop_last() =~= views(lines@).take(i as int));
        r = concat_str(r.as_str(), lines[i].as_str());
    }
    assert(views(lines@).take(n as int) =~= views(lines@));
    r
}

} // verus!
