//! What the notifier reads out of the portal's pages: the text and images of
//! a notice, the notices of a list page, and the notice table assembled from
//! several list pages.
use vstd::prelude::*;
use crate::item::Item;
use crate::scrape::{
    match_count, matched_attr, matched_inner_html, nested_attr, nested_inner_html, node_texts,
    node_texts_of, opt_views, select_attr, select_inner_html, select_nested_attr,
    select_nested_inner_html, selector_valid,
};
use crate::text::{
    concat_str, contains, contains_str, decimal, decimal_string, replace_all, replace_str, views,
};

verus! {

/// The block that holds a notice's body, in its usual form.
pub const CONTENT_SELECTOR: &'static str = "div[class=\"content_font fontsize immmge\"]";

/// The block that holds a notice's body, in its plain form.
pub const CONTENT_FALLBACK_SELECTOR: &'static str = "div[class=\"content_font\"]";

/// The images of a notice's body.
pub const IMAGE_SELECTOR: &'static str = "img";

/// The attribute that holds an image's address.
pub const IMAGE_SOURCE: &'static str = "src";

/// One notice of a list page.
pub const ROW_SELECTOR: &'static str = "DIV[class=\"li rel\"]";

/// The title link of a notice of a list page.
pub const TITLE_SELECTOR: &'static str = "a.font14";

/// The department link of a notice of a list page.
pub const SOURCE_SELECTOR: &'static str = "a.column";

/// The date of a notice of a list page.
pub const TIME_SELECTOR: &'static str = "span.time";

/// The attribute that holds a link's target.
pub const LINK_ATTR: &'static str = "href";

/// The prefix of the portal's relative image addresses.
pub const SITE_ROOT: &'static str = "https://oa.jlu.edu.cn/";

/// The prefix of the portal's relative notice links.
pub const PORTAL_ROOT: &'static str = "https://oa.jlu.edu.cn/defaultroot/";

/// The address of a list page, up to its page number.
pub const LIST_PAGE_PREFIX: &'static str =
    "https://oa.jlu.edu.cn/defaultroot/PortalInformation!jldxList.action?1=1&channelId=179577&startPage=";

/// How many list pages the notice table is assembled from.
pub const PAGES: u64 = 10;

/// How many notices a complete list page holds.
pub const ITEMS_PER_PAGE: usize = 30;

/// The HTML line break.
pub const LINE_BREAK: &'static str = "<br>";

/// A newline.
pub const NEWLINE: &'static str = "\n";

/// The end of an HTML paragraph.
pub const PARAGRAPH_END: &'static str = "</p>";

/// The end of an HTML paragraph followed by a newline.
pub const PARAGRAPH_END_BREAK: &'static str = "</p>\n";

/// The en space, U+2002.
pub const EN_SPACE: &'static str = "\u{2002}";

/// Two spaces.
pub const TWO_SPACES: &'static str = "  ";

/// The HTML entity of the non-breaking space.
pub const NBSP_ENTITY: &'static str = "&nbsp;";

/// The mark that the portal puts in the title of a pinned notice.
pub const PIN_FONT: &'static str = "<font class=\"red\">[置顶]</font>";

/// What betrays a pinned notice in its title's HTML.
pub const PIN_HINT: &'static str = "red";

/// The empty string.
pub const EMPTY: &'static str = "";

/// Why a page could not be read.
#[derive(Debug, PartialEq, Eq, Structural)]
pub enum ScrapeError {
    /// One of the fixed CSS selectors does not parse.
    BadSelector,
    /// The notice page has no body block.
    MissingContent,
    /// An image of the notice's body has no address.
    ImageWithoutSource,
    /// A notice of a list page lacks its title, link, department or date.
    IncompleteRow,
}

/// `o`'s text, or the empty text.
pub open spec fn or_empty(o: Option<Seq<char>>) -> Seq<char> {
    match o {
        Some(s) => s,
        None => Seq::<char>::empty(),
    }
}

// ---------------------------------------------------------------------------
// A notice's page
// ---------------------------------------------------------------------------

/// A notice body's HTML with line breaks turned into newlines, a newline
/// after each paragraph, and each en space turned into two spaces.
pub open spec fn normalized(body: Seq<char>) -> Seq<char> {
    replace_all(
        replace_all(replace_all(body, LINE_BREAK@, NEWLINE@), PARAGRAPH_END@, PARAGRAPH_END_BREAK@),
        EN_SPACE@,
        TWO_SPACES@,
    )
}

/// The inner HTML of the notice's body block: the first block in its usual
/// form, else the first in its plain form.
pub open spec fn content_block(page: Seq<char>) -> Seq<char> {
    if match_count(page, CONTENT_SELECTOR@) > 0 {
        matched_inner_html(page, CONTENT_SELECTOR@)[0]
    } else {
        matched_inner_html(page, CONTENT_FALLBACK_SELECTOR@)[0]
    }
}

/// The body block chosen among the inner HTML of the blocks in their usual
/// form (`usual`) and in their plain form (`plain`): the first usual one if
/// there is one, else the first plain one.
pub open spec fn chosen_block(usual: Seq<Seq<char>>, plain: Seq<Seq<char>>) -> Seq<char> {
    if usual.len() > 0 {
        usual[0]
    } else {
        plain[0]
    }
}

/// The body block chosen among the inner HTML of the blocks in their usual
/// form and in their plain form.
pub fn choose_block(usual: &Vec<String>, plain: &Vec<String>) -> (r: String)
    requires
        usual@.len() > 0 || plain@.len() > 0,
    ensures
        r@ == chosen_block(views(usual@), views(plain@)),
{
    if usual.len() > 0 {
        usual[0].clone()
    } else {
        plain[0].clone()
    }
}

/// The normalised body of the notice on `page`.
pub open spec fn content_html(page: Seq<char>) -> Seq<char> {
    normalized(content_block(page))
}

/// The selectors that reading a notice needs all parse.
pub open spec fn content_selectors_valid() -> bool {
    &&& selector_valid(CONTENT_SELECTOR@)
    &&& selector_valid(CONTENT_FALLBACK_SELECTOR@)
    &&& selector_valid(IMAGE_SELECTOR@)
}

/// `page` has a body block in one of its two forms.
pub open spec fn has_content_block(page: Seq<char>) -> bool {
    match_count(page, CONTENT_SELECTOR@) > 0 || match_count(page, CONTENT_FALLBACK_SELECTOR@) > 0
}

/// Every image of `body` has an address.
pub open spec fn images_have_sources(body: Seq<char>) -> bool {
    forall|i: int|
        0 <= i < match_count(body, IMAGE_SELECTOR@) ==> (#[trigger] matched_attr(
            body,
            IMAGE_SELECTOR@,
            IMAGE_SOURCE@,
        )[i]) is Some
}

/// A notice can be read from `page`.
pub open spec fn content_ready(page: Seq<char>) -> bool {
    &&& content_selectors_valid()
    &&& has_content_block(page)
    &&& images_have_sources(content_html(page))
}

/// The texts of the text nodes among `nodes`, in order.
pub open spec fn texts_of(nodes: Seq<Option<Seq<char>>>) -> Seq<Seq<char>>
    decreases nodes.len(),
{
    if nodes.len() == 0 {
        Seq::<Seq<char>>::empty()
    } else {
        texts_of(nodes.drop_last()) + match nodes.last() {
            Some(t) => seq![t],
            None => Seq::<Seq<char>>::empty(),
        }
    }
}

/// Absolute addresses of images whose addresses are relative to the site.
pub open spec fn image_links(sources: Seq<Option<Seq<char>>>) -> Seq<Seq<char>> {
    sources.map_values(|o: Option<Seq<char>>| SITE_ROOT@ + or_empty(o))
}

/// The text lines of the notice on `page`.
pub open spec fn content_texts(page: Seq<char>) -> Seq<Seq<char>> {
    texts_of(node_texts_of(content_html(page)))
}

/// The image addresses of the notice on `page`.
pub open spec fn content_images(page: Seq<char>) -> Seq<Seq<char>> {
    image_links(matched_attr(content_html(page), IMAGE_SELECTOR@, IMAGE_SOURCE@))
}

/// `r` is what reading a notice gives for the fetched `page`: nothing for
/// an empty page, else its text lines and its image addresses.
pub open spec fn is_content_of(page: Seq<char>, r: Option<(Vec<String>, Vec<String>)>) -> bool {
    if page.len() == 0 {
        r is None
    } else {
        match r {
            Some((texts, images)) => views(texts@) == content_texts(page) && views(images@)
                == content_images(page),
            None => false,
        }
    }
}

/// The body HTML with line breaks, paragraph ends and en spaces rewritten.
pub fn normalize_content(body: &str) -> (r: String)
    ensures
        r@ == normalized(body@),
{
    proof {
        reveal_strlit("<br>");
        reveal_strlit("</p>");
        reveal_strlit("\u{2002}");
    }
    let a = replace_str(body, LINE_BREAK, NEWLINE);
    let b = replace_str(a.as_str(), PARAGRAPH_END, PARAGRAPH_END_BREAK);
    replace_str(b.as_str(), EN_SPACE, TWO_SPACES)
}

/// The texts of the text nodes among `nodes`, in order.
pub fn texts_among(nodes: &Vec<Option<String>>) -> (r: Vec<String>)
    ensures
        views(r@) == texts_of(opt_views(nodes@)),
{
    let mut r: Vec<String> = Vec::new();
    let n = nodes.len();
    assert(opt_views(nodes@).take(0) =~= Seq::<Option<Seq<char>>>::empty());
    assert(views(r@) =~= Seq::<Seq<char>>::empty());
    for i in 0..n
        invariant
            n == nodes@.len(),
            views(r@) == texts_of(opt_views(nodes@).take(i as int)),
    {
        let ghost r0 = views(r@);
        let ghost pre = opt_views(nodes@).take(i + 1);
        assert(pre.drop_last() =~= opt_views(nodes@).take(i as int));
        match &nodes[i] {
            Some(t) => {
                r.push(t.clone());
                assert(views(r@) =~= r0 + seq![t@]);
            },
            None => {
                assert(r0 + Seq::<Seq<char>>::empty() =~= r0);
            },
        }
    }
    assert(opt_views(nodes@).take(n as int) =~= opt_views(nodes@));
    r
}

/// Absolute image addresses for the site-relative `sources`, all present.
pub fn absolute_images(sources: &Vec<Option<String>>) -> (r: Vec<String>)
    requires
        forall|i: int| 0 <= i < sources@.len() ==> (#[trigger] sources@[i]) is Some,
    ensures
        views(r@) == image_links(opt_views(sources@)),
{
    let mut r: Vec<String> = Vec::new();
    let n = sources.len();
    for i in 0..n
        invariant
            n == sources@.len(),
            forall|j: int| 0 <= j < sources@.len() ==> (#[trigger] sources@[j]) is Some,
            views(r@) == image_links(opt_views(sources@)).take(i as int),
    {
        let ghost r0 = views(r@);
        match &sources[i] {
            Some(s) => {
                let link = concat_str(SITE_ROOT, s.as_str());
                assert(opt_views(sources@)[i as int] == Some(s@));
                let ghost l = link@;
                r.push(link);
                assert(views(r@) =~= r0.push(l));
                assert(image_links(opt_views(sources@))[i as int] == l);
                assert(views(r@) =~= image_links(opt_views(sources@)).take(i + 1));
            },
            None => {
                assert(false);
            },
        }
    }
    assert(image_links(opt_views(sources@)).take(n as int) =~= image_links(opt_views(sources@)));
    r
}

/// The text lines and image addresses of the notice on the fetched `page`;
/// nothing for an empty page.
pub fn get_content(page: &str) -> (r: Option<(Vec<String>, Vec<String>)>)
    requires
        page@.len() > 0 ==> content_ready(page@),
    ensures
        is_content_of(page@, r),
{
    if page.is_empty() {
        return None;
    }
    let usual = select_inner_html(page, CONTENT_SELECTOR).unwrap();
    let plain = select_inner_html(page, CONTENT_FALLBACK_SELECTOR).unwrap();
    let block = choose_block(&usual, &plain);
    let body = normalize_content(block.as_str());
    let sources = select_attr(body.as_str(), IMAGE_SELECTOR, IMAGE_SOURCE).unwrap();
    let nodes = node_texts(body.as_str());
    let texts = texts_among(&nodes);
    proof {
        assert forall|i: int| 0 <= i < sources@.len() implies (#[trigger] sources@[i]) is Some by {
            assert(opt_views(sources@)[i] is Some);
        }
    }
    let images = absolute_images(&sources);
    Some((texts, images))
}

/// Reads the notice on the fetched `page` where that can be done: `Ok` with
/// what `get_content` gives, else the reason it cannot.
pub fn try_get_content(page: &str) -> (r: Result<Option<(Vec<String>, Vec<String>)>, ScrapeError>)
    ensures
        page@.len() == 0 ==> r == Ok::<Option<(Vec<String>, Vec<String>)>, ScrapeError>(None),
        page@.len() > 0 && !content_selectors_valid() ==> r == Err::<
            Option<(Vec<String>, Vec<String>)>,
            ScrapeError,
        >(ScrapeError::BadSelector),
        page@.len() > 0 && content_selectors_valid() && !has_content_block(page@) ==> r == Err::<
            Option<(Vec<String>, Vec<String>)>,
            ScrapeError,
        >(ScrapeError::MissingContent),
        page@.len() > 0 && content_selectors_valid() && has_content_block(page@)
            && !images_have_sources(content_html(page@)) ==> r == Err::<
            Option<(Vec<String>, Vec<String>)>,
            ScrapeError,
        >(ScrapeError::ImageWithoutSource),
        r is Ok <==> (page@.len() == 0 || content_ready(page@)),
        r matches Ok(c) ==> is_content_of(page@, c),
{
    if page.is_empty() {
        return Ok(None);
    }
    let usual = select_inner_html(page, CONTENT_SELECTOR);
    let plain = select_inner_html(page, CONTENT_FALLBACK_SELECTOR);
    // Whether the image selector parses does not depend on the page queried.
    let images = select_attr(EMPTY, IMAGE_SELECTOR, IMAGE_SOURCE);
    let (usual, plain) = match (usual, plain, images) {
        (Some(u), Some(p), Some(_)) => (u, p),
        _ => return Err(ScrapeError::BadSelector),
    };
    if usual.len() == 0 && plain.len() == 0 {
        return Err(ScrapeError::MissingContent);
    }
    let block = choose_block(&usual, &plain);
    let body = normalize_content(block.as_str());
    let sources = select_attr(body.as_str(), IMAGE_SELECTOR, IMAGE_SOURCE).unwrap();
    let n = sources.len();
    for i in 0..n
        invariant
            n == sources@.len(),
            n == match_count(body@, IMAGE_SELECTOR@),
            opt_views(sources@) == matched_attr(body@, IMAGE_SELECTOR@, IMAGE_SOURCE@),
            forall|j: int| 0 <= j < i ==> (#[trigger] sources@[j]) is Some,
            page@.len() > 0,
            content_selectors_valid(),
            has_content_block(page@),
            body@ == content_html(page@),
    {
        if sources[i].is_none() {
            assert(matched_attr(body@, IMAGE_SELECTOR@, IMAGE_SOURCE@)[i as int] is None);
            assert(!images_have_sources(content_html(page@)));
            return Err(ScrapeError::ImageWithoutSource);
        }
    }
    proof {
        assert forall|i: int| 0 <= i < match_count(body@, IMAGE_SELECTOR@) implies (
        #[trigger] matched_attr(body@, IMAGE_SELECTOR@, IMAGE_SOURCE@)[i]) is Some by {
            assert(sources@[i] is Some);
        }
    }
    Ok(get_content(page))
}

// ---------------------------------------------------------------------------
// A list page
// ---------------------------------------------------------------------------

/// The selectors that reading a list page needs all parse.
pub open spec fn list_selectors_valid() -> bool {
    &&& selector_valid(ROW_SELECTOR@)
    &&& selector_valid(TITLE_SELECTOR@)
    &&& selector_valid(SOURCE_SELECTOR@)
    &&& selector_valid(TIME_SELECTOR@)
}

/// The title HTML of each notice of a list page.
pub open spec fn row_titles(page: Seq<char>) -> Seq<Option<Seq<char>>> {
    nested_inner_html(page, ROW_SELECTOR@, TITLE_SELECTOR@)
}

/// The link of each notice of a list page.
pub open spec fn row_links(page: Seq<char>) -> Seq<Option<Seq<char>>> {
    nested_attr(page, ROW_SELECTOR@, TITLE_SELECTOR@, LINK_ATTR@)
}

/// The department of each notice of a list page.
pub open spec fn row_sources(page: Seq<char>) -> Seq<Option<Seq<char>>> {
    nested_inner_html(page, ROW_SELECTOR@, SOURCE_SELECTOR@)
}

/// The date HTML of each notice of a list page.
pub open spec fn row_times(page: Seq<char>) -> Seq<Option<Seq<char>>> {
    nested_inner_html(page, ROW_SELECTOR@, TIME_SELECTOR@)
}

/// The number of notices on a list page.
pub open spec fn row_count(page: Seq<char>) -> nat {
    match_count(page, ROW_SELECTOR@)
}

/// Every notice of the list page has its title, link, department and date.
pub open spec fn rows_complete(page: Seq<char>) -> bool {
    forall|i: int|
        0 <= i < row_count(page) ==> {
            &&& (#[trigger] row_titles(page)[i]) is Some
            &&& row_links(page)[i] is Some
            &&& row_sources(page)[i] is Some
            &&& row_times(page)[i] is Some
        }
}

/// A list page can be read from `page`.
pub open spec fn list_page_ready(page: Seq<char>) -> bool {
    list_selectors_valid() && rows_complete(page)
}

/// `it` is the notice with the given title HTML, relative link, department
/// and date HTML: non-breaking spaces dropped from title and date, pinned
/// when the title's HTML mentions `red` (the class of the portal's pin
/// mark), the pin mark dropped from the title, and the link made absolute.
pub open spec fn is_item_of(
    it: Item,
    title_html: Seq<char>,
    link: Seq<char>,
    source: Seq<char>,
    time_html: Seq<char>,
) -> bool {
    let title = replace_all(title_html, NBSP_ENTITY@, EMPTY@);
    &&& it.is_top == contains(title, PIN_HINT@)
    &&& it.title@ == replace_all(title, PIN_FONT@, EMPTY@)
    &&& it.href@ == PORTAL_ROOT@ + link
    &&& it.source@ == source
    &&& it.time@ == replace_all(time_html, NBSP_ENTITY@, EMPTY@)
}

/// `it` is the notice of row `i` of the list page.
pub open spec fn is_row_item(page: Seq<char>, i: int, it: Item) -> bool {
    is_item_of(
        it,
        or_empty(row_titles(page)[i]),
        or_empty(row_links(page)[i]),
        or_empty(row_sources(page)[i]),
        or_empty(row_times(page)[i]),
    )
}

/// `r` is what reading a list page gives for the fetched `page`: nothing for
/// an empty page, else its notices in order.
pub open spec fn is_list_of(page: Seq<char>, r: Option<Vec<Item>>) -> bool {
    if page.len() == 0 {
        r is None
    } else {
        match r {
            Some(items) => items@.len() == row_count(page) && forall|i: int|
                0 <= i < items@.len() ==> is_row_item(page, i, #[trigger] items@[i]),
            None => false,
        }
    }
}

/// The notice with the given title HTML, relative link, department and date
/// HTML.
pub fn make_item(title_html: &str, link: &str, source: &str, time_html: &str) -> (it: Item)
    ensures
        is_item_of(it, title_html@, link@, source@, time_html@),
{
    proof {
        reveal_strlit("&nbsp;");
        reveal_strlit("<font class=\"red\">[置顶]</font>");
    }
    let title = replace_str(title_html, NBSP_ENTITY, EMPTY);
    let is_top = contains_str(title.as_str(), PIN_HINT);
    let title = replace_str(title.as_str(), PIN_FONT, EMPTY);
    let href = concat_str(PORTAL_ROOT, link);
    let time = replace_str(time_html, NBSP_ENTITY, EMPTY);
    Item { title, time, source: source.to_owned(), href, is_top }
}

/// The notices of the fetched list page; nothing for an empty page.
pub fn get_title_page(page: &str) -> (r: Option<Vec<Item>>)
    requires
        page@.len() > 0 ==> list_page_ready(page@),
    ensures
        is_list_of(page@, r),
{
    if page.is_empty() {
        return None;
    }
    let titles = select_nested_inner_html(page, ROW_SELECTOR, TITLE_SELECTOR).unwrap();
    let links = select_nested_attr(page, ROW_SELECTOR, TITLE_SELECTOR, LINK_ATTR).unwrap();
    let sources = select_nested_inner_html(page, ROW_SELECTOR, SOURCE_SELECTOR).unwrap();
    let times = select_nested_inner_html(page, ROW_SELECTOR, TIME_SELECTOR).unwrap();
    let n = titles.len();
    let mut items: Vec<Item> = Vec::new();
    for i in 0..n
        invariant
            n == titles@.len(),
            n == row_count(page@),
            links@.len() == n,
            sources@.len() == n,
            times@.len() == n,
            opt_views(titles@) == row_titles(page@),
            opt_views(links@) == row_links(page@),
            opt_views(sources@) == row_sources(page@),
            opt_views(times@) == row_times(page@),
            rows_complete(page@),
            items@.len() == i,
            forall|j: int| 0 <= j < i ==> is_row_item(page@, j, #[trigger] items@[j]),
    {
        assert(row_titles(page@)[i as int] is Some);
        assert(opt_views(links@)[i as int] is Some);
        assert(opt_views(sources@)[i as int] is Some);
        assert(opt_views(times@)[i as int] is Some);
        let title = titles[i].as_ref().unwrap();
        let link = links[i].as_ref().unwrap();
        let source = sources[i].as_ref().unwrap();
        let time = times[i].as_ref().unwrap();
        let it = make_item(title.as_str(), link.as_str(), source.as_str(), time.as_str());
        items.push(it);
    }
    Some(items)
}

/// Reads the fetched list page where that can be done: `Ok` with what
/// `get_title_page` gives, else the reason it cannot.
pub fn try_get_title_page(page: &str) -> (r: Result<Option<Vec<Item>>, ScrapeError>)
    ensures
        page@.len() == 0 ==> r == Ok::<Option<Vec<Item>>, ScrapeError>(None),
        page@.len() > 0 && !list_selectors_valid() ==> r == Err::<Option<Vec<Item>>, ScrapeError>(
            ScrapeError::BadSelector,
        ),
        page@.len() > 0 && list_selectors_valid() && !rows_complete(page@) ==> r == Err::<
            Option<Vec<Item>>,
            ScrapeError,
        >(ScrapeError::IncompleteRow),
        r is Ok <==> (page@.len() == 0 || list_page_ready(page@)),
        r matches Ok(c) ==> is_list_of(page@, c),
{
    if page.is_empty() {
        return Ok(None);
    }
    let titles = select_nested_inner_html(page, ROW_SELECTOR, TITLE_SELECTOR);
    let links = select_nested_attr(page, ROW_SELECTOR, TITLE_SELECTOR, LINK_ATTR);
    let sources = select_nested_inner_html(page, ROW_SELECTOR, SOURCE_SELECTOR);
    let times = select_nested_inner_html(page, ROW_SELECTOR, TIME_SELECTOR);
    let (titles, links, sources, times) = match (titles, links, sources, times) {
        (Some(a), Some(b), Some(c), Some(d)) => (a, b, c, d),
        _ => return Err(ScrapeError::BadSelector),
    };
    let n = titles.len();
    for i in 0..n
        invariant
            n == titles@.len(),
            n == row_count(page@),
            links@.len() == n,
            sources@.len() == n,
            times@.len() == n,
            opt_views(titles@) == row_titles(page@),
            opt_views(links@) == row_links(page@),
            opt_views(sources@) == row_sources(page@),
            opt_views(times@) == row_times(page@),
            page@.len() > 0,
            list_selectors_valid(),
            forall|j: int|
                0 <= j < i ==> {
                    &&& (#[trigger] row_titles(page@)[j]) is Some
                    &&& row_links(page@)[j] is Some
                    &&& row_sources(page@)[j] is Some
                    &&& row_times(page@)[j] is Some
                },
    {
        if titles[i].is_none() || links[i].is_none() || sources[i].is_none() || times[i].is_none() {
            assert(!(opt_views(titles@)[i as int] is Some && opt_views(links@)[i as int] is Some
                && opt_views(sources@)[i as int] is Some && opt_views(times@)[i as int] is Some));
            assert(!rows_complete(page@));
            return Err(ScrapeError::IncompleteRow);
        }
        assert(opt_views(titles@)[i as int] is Some);
        assert(opt_views(links@)[i as int] is Some);
        assert(opt_views(sources@)[i as int] is Some);
        assert(opt_views(times@)[i as int] is Some);
    }
    Ok(get_title_page(page))
}

// ---------------------------------------------------------------------------
// The notice table
// ---------------------------------------------------------------------------

/// The address of list page `number` (counted from 1).
pub open spec fn list_page_url(number: nat) -> Seq<char> {
    LIST_PAGE_PREFIX@ + decimal(number)
}

/// The addresses of the first `pages` list pages, in order.
pub fn page_urls(pages: u64) -> (r: Vec<String>)
    ensures
        r@.len() == pages,
        forall|i: int| 0 <= i < pages ==> (#[trigger] r@[i])@ == list_page_url((i + 1) as nat),
{
    let mut r: Vec<String> = Vec::new();
    for i in 0..pages
        invariant
            r@.len() == i,
            forall|j: int| 0 <= j < i ==> (#[trigger] r@[j])@ == list_page_url((j + 1) as nat),
    {
        let number = decimal_string(i + 1);
        r.push(concat_str(LIST_PAGE_PREFIX, number.as_str()));
    }
    r
}

/// The notices of the first `k` pages, one page after the other.
pub open spec fn joined(pages: Seq<Vec<Item>>, k: int) -> Seq<Item>
    decreases k,
{
    if k <= 0 {
        Seq::<Item>::empty()
    } else {
        joined(pages, k - 1) + pages[k - 1]@
    }
}

/// A list page that holds all the notices a list page holds.
pub open spec fn page_complete(page: Vec<Item>) -> bool {
    page@.len() == ITEMS_PER_PAGE
}

/// Refills `vector` with the notices of the list pages `pages`, in order.
/// It stops at the first page that is not complete, keeping the notices of
/// the pages before it, and then reports `false`.
pub fn get_table(vector: &mut Vec<Item>, pages: &Vec<Vec<Item>>) -> (ok: bool)
    ensures
        ok == forall|j: int| 0 <= j < pages@.len() ==> page_complete(#[trigger] pages@[j]),
        ok ==> final(vector)@ == joined(pages@, pages@.len() as int),
        !ok ==> exists|k: int|
            0 <= k < pages@.len() && !page_complete(#[trigger] pages@[k]) && (forall|j: int|
                0 <= j < k ==> page_complete(#[trigger] pages@[j])) && final(vector)@ == joined(
                pages@,
                k,
            ),
{
    vector.clear();
    let count = pages.len();
    for k in 0..count
        invariant
            count == pages@.len(),
            vector@ == joined(pages@, k as int),
            forall|j: int| 0 <= j < k ==> page_complete(#[trigger] pages@[j]),
    {
        let page = &pages[k];
        if page.len() != ITEMS_PER_PAGE {
            assert(!page_complete(pages@[k as int]));
            return false;
        }
        let m = page.len();
        let ghost before = vector@;
        for i in 0..m
            invariant
                m == page@.len(),
                vector@ == before + page@.take(i as int),
        {
            vector.push(page[i].duplicate());
            assert(vector@ =~= before + page@.take(i + 1));
        }
        assert(page@.take(m as int) =~= page@);
    }
    true
}

} // verus!
