//! Properties that hold across the library's operations.
use vstd::prelude::*;
use crate::actions::{
    is_click_action, is_menu_label, joined_text, menu_items, pieces_from, Button, ClickAction,
    DEPARTMENT_URL_PREFIX, FILTER_LABEL, HOME_LABEL, MENU_ENTRIES, REFRESH_LABEL, SEARCH_LABEL,
    TITLE_SEPARATOR,
};
use crate::item::{Item, VERSION};
use crate::update::{is_update_check, UpdateCheck, FIRST_MARK, SECOND_MARK, UPDATE_QUESTION};
use crate::html::{
    joined, list_page_url, normalized, page_complete, texts_of, EN_SPACE, ITEMS_PER_PAGE, LINE_BREAK,
    LIST_PAGE_PREFIX, NEWLINE, PARAGRAPH_END, PARAGRAPH_END_BREAK, TWO_SPACES,
};
use crate::poll::{kept, mentions, wanted};
use crate::style::{cell_background, cell_ink, Ink, PINNED};
use crate::table::{cell, first_column, is_listed, row_found, is_update_of, row_of, stripped, title_label, unseen, PIN_LABEL};
use crate::text::{
    contains, decimal, first_index, law_decimal_injective, lemma_contains_char, lemma_replace_absent,
    lemma_replace_char_removes, lemma_replace_prefix, occurs_at, replace_all, views,
};

verus! {

/// The title cell of a notice gives its title back once the pin label is
/// taken out, unless the title itself holds the pin label.
pub proof fn law_title_cell_roundtrip(it: Item)
    requires
        !contains(it.title@, PIN_LABEL@),
    ensures
        stripped(title_label(it)) == it.title@,
{
    reveal_strlit("[置顶]");
    lemma_replace_absent(it.title@, PIN_LABEL@, Seq::<char>::empty());
    if it.is_top {
        lemma_replace_prefix(it.title@, PIN_LABEL@, Seq::<char>::empty());
        assert(Seq::<char>::empty() + it.title@ =~= it.title@);
    }
}

/// No notice is new when every one of them is shown.
proof fn lemma_unseen_empty(known: Seq<Seq<char>>, items: Seq<Item>)
    requires
        forall|i: int| 0 <= i < items.len() ==> is_listed(known, (#[trigger] items[i]).title@),
    ensures
        unseen(known, items) == Seq::<Item>::empty(),
    decreases items.len(),
{
    if items.len() > 0 {
        let rest = items.drop_last();
        assert forall|i: int| 0 <= i < rest.len() implies is_listed(known, (#[trigger] rest[i]).title@) by {
            assert(rest[i] == items[i]);
        }
        lemma_unseen_empty(known, rest);
        assert(is_listed(known, items[items.len() - 1].title@));
    }
}

/// Once the fetched notices are put into the table, checking the same
/// notices against the table's first column finds none of them new
/// (unless a title itself holds the pin label).
pub proof fn law_no_news_after_update(
    new_t: Seq<Vec<String>>,
    old_t: Seq<Vec<String>>,
    now: Seq<Item>,
    k: int,
)
    requires
        is_update_of(new_t, old_t, now, k),
        now.len() <= old_t.len(),
        forall|i: int| 0 <= i < now.len() ==> !contains((#[trigger] now[i]).title@, PIN_LABEL@),
    ensures
        unseen(first_column(new_t, now.len()), now) == Seq::<Item>::empty(),
{
    let known = first_column(new_t, now.len());
    assert forall|i: int| 0 <= i < now.len() implies is_listed(known, (#[trigger] now[i]).title@) by {
        assert(views(new_t[i]@) == row_of(now[i]));
        assert(views(new_t[i]@)[0] == new_t[i]@[0]@);
        assert(known[i] == title_label(now[i]));
        law_title_cell_roundtrip(now[i]);
        assert(stripped(known[i]) == now[i].title@);
    }
    lemma_unseen_empty(known, now);
}

/// The notices that the keywords let through are among the given ones, and
/// no more of them.
pub proof fn law_kept_within(
    items: Seq<Item>,
    contents: Seq<Vec<String>>,
    keys: Seq<Seq<char>>,
    n: int,
)
    requires
        0 <= n <= items.len(),
    ensures
        kept(items, contents, keys, n).len() <= n,
        forall|j: int|
            0 <= j < kept(items, contents, keys, n).len() ==> items.take(n).contains(
                #[trigger] kept(items, contents, keys, n)[j],
            ),
    decreases n,
{
    if n > 0 {
        law_kept_within(items, contents, keys, n - 1);
        let prev = kept(items, contents, keys, n - 1);
        let cur = kept(items, contents, keys, n);
        assert forall|j: int| 0 <= j < cur.len() implies items.take(n).contains(#[trigger] cur[j]) by {
            if j < prev.len() {
                assert(cur[j] == prev[j]);
                let m = choose|m: int| 0 <= m < n - 1 && #[trigger] items.take(n - 1)[m] == prev[j];
                assert(items.take(n)[m] == prev[j]);
            } else {
                assert(cur[j] == items[n - 1]);
                assert(items.take(n)[n - 1] == items[n - 1]);
            }
        }
    }
}

/// A table assembled from `k` complete list pages holds thirty notices per
/// page.
pub proof fn law_full_table_size(pages: Seq<Vec<Item>>, k: int)
    requires
        0 <= k <= pages.len(),
        forall|j: int| 0 <= j < k ==> page_complete(#[trigger] pages[j]),
    ensures
        joined(pages, k).len() == k * ITEMS_PER_PAGE,
    decreases k,
{
    if k > 0 {
        law_full_table_size(pages, k - 1);
        assert(page_complete(pages[k - 1]));
    }
}

/// Different list pages have different addresses.
pub proof fn law_page_urls_distinct(a: nat, b: nat)
    requires
        a != b,
    ensures
        list_page_url(a) != list_page_url(b),
{
    if list_page_url(a) == list_page_url(b) {
        let n = LIST_PAGE_PREFIX@.len() as int;
        assert(list_page_url(a).skip(n) =~= decimal(a));
        assert(list_page_url(b).skip(n) =~= decimal(b));
        law_decimal_injective(a, b);
    }
}

/// The title cell of a pinned notice shows the pin mark that the table's
/// painting looks for.
pub proof fn law_pinned_rows_look_pinned(it: Item)
    requires
        it.is_top,
    ensures
        contains(title_label(it), PINNED@),
{
    reveal_strlit("[置顶]");
    reveal_strlit("置顶");
    let s = title_label(it);
    assert(s.subrange(1, 3) =~= PINNED@);
    assert(occurs_at(s, PINNED@, 1));
}

/// A notice's normalised body holds no en space: each became two spaces.
pub proof fn law_normalized_has_no_en_space(body: Seq<char>)
    ensures
        !contains(normalized(body), EN_SPACE@),
{
    reveal_strlit("\u{2002}");
    reveal_strlit("  ");
    assert(EN_SPACE@ =~= seq!['\u{2002}']);
    lemma_contains_char(TWO_SPACES@, '\u{2002}');
    assert(!contains(TWO_SPACES@, seq!['\u{2002}'])) by {
        assert(TWO_SPACES@[0] == ' ');
        assert(TWO_SPACES@[1] == ' ');
    }
    let inner = replace_all(
        replace_all(body, LINE_BREAK@, NEWLINE@),
        PARAGRAPH_END@,
        PARAGRAPH_END_BREAK@,
    );
    lemma_replace_char_removes(inner, '\u{2002}', TWO_SPACES@);
}

/// Cutting a path goes on through a piece that holds no `|`.
proof fn lemma_pieces_plain(piece: Seq<char>, tail: Seq<char>, cur: Seq<char>)
    requires
        forall|i: int| 0 <= i < piece.len() ==> piece[i] != '|',
    ensures
        pieces_from(piece + tail, cur) == pieces_from(tail, cur + piece),
    decreases piece.len(),
{
    if piece.len() > 0 {
        let rest = piece.drop_first();
        assert((piece + tail).drop_first() =~= rest + tail);
        assert((piece + tail)[0] == piece[0]);
        lemma_pieces_plain(rest, tail, cur.push(piece[0]));
        assert(cur.push(piece[0]) + rest =~= cur + piece);
    } else {
        assert(piece + tail =~= tail);
        assert(cur + piece =~= cur);
    }
}

/// Cutting a path at a `|` closes the entry under way.
proof fn lemma_pieces_bar(tail: Seq<char>, cur: Seq<char>)
    ensures
        pieces_from(seq!['|'] + tail, cur) == seq![cur] + pieces_from(tail, Seq::<char>::empty()),
{
    assert((seq!['|'] + tail).drop_first() =~= tail);
}

/// The menu offers exactly the four entries that the menu's handler knows,
/// so a choice from it is always one of them.
pub proof fn law_menu_entries_are_known()
    ensures
        menu_items(MENU_ENTRIES@) == seq![HOME_LABEL@, SEARCH_LABEL@, FILTER_LABEL@, REFRESH_LABEL@],
        forall|i: int|
            0 <= i < menu_items(MENU_ENTRIES@).len() ==> is_menu_label(
                #[trigger] menu_items(MENU_ENTRIES@)[i],
            ),
{
    reveal_strlit("OA主页  |搜索  |过滤  |刷新  ");
    reveal_strlit("OA主页  ");
    reveal_strlit("搜索  ");
    reveal_strlit("过滤  ");
    reveal_strlit("刷新  ");
    let h = HOME_LABEL@;
    let s = SEARCH_LABEL@;
    let f = FILTER_LABEL@;
    let r = REFRESH_LABEL@;
    let bar = seq!['|'];
    let e = Seq::<char>::empty();
    assert(MENU_ENTRIES@ =~= h + (bar + (s + (bar + (f + (bar + r))))));
    assert(forall|i: int| 0 <= i < h.len() ==> h[i] != '|');
    assert(forall|i: int| 0 <= i < s.len() ==> s[i] != '|');
    assert(forall|i: int| 0 <= i < f.len() ==> f[i] != '|');
    assert(forall|i: int| 0 <= i < r.len() ==> r[i] != '|');
    assert(e + h =~= h);
    assert(e + s =~= s);
    assert(e + f =~= f);
    assert(e + r =~= r);
    lemma_pieces_plain(h, bar + (s + (bar + (f + (bar + r)))), e);
    lemma_pieces_bar(s + (bar + (f + (bar + r))), h);
    lemma_pieces_plain(s, bar + (f + (bar + r)), e);
    lemma_pieces_bar(f + (bar + r), s);
    lemma_pieces_plain(f, bar + r, e);
    lemma_pieces_bar(r, f);
    lemma_pieces_plain(r, e, e);
    assert(r + e =~= r);
    assert(menu_items(MENU_ENTRIES@) =~= seq![h, s, f, r]);
}

// ---------------------------------------------------------------------------
// The update check
// ---------------------------------------------------------------------------

/// The update check's verdict follows the release address alone: the page is
/// up to date exactly when the text between the first address marks names
/// the running version, and otherwise the newer release offered is that
/// text. Text elsewhere on the page does not change the verdict.
pub proof fn law_update_follows_address(s: Seq<char>, d: UpdateCheck, a: int, b: int)
    requires
        is_update_check(Some(s), d),
        first_index(s, FIRST_MARK@) == Some(a),
        first_index(s, SECOND_MARK@) == Some(b),
    ensures
        (d is UpToDate) <==> contains(s.subrange(a + 9, b), VERSION@),
        !contains(s.subrange(a + 9, b), VERSION@) ==> (d matches UpdateCheck::NewVersion {
            url,
            message,
        } && url@ == s.subrange(a + 9, b) && message@.take(UPDATE_QUESTION@.len() as int)
            == UPDATE_QUESTION@),
{
    if let UpdateCheck::NewVersion { url, message } = d {
        let tail = message@.skip(UPDATE_QUESTION@.len() as int);
        assert(message@.take(UPDATE_QUESTION@.len() as int) =~= UPDATE_QUESTION@);
    }
}

/// Two release pages with the same release address get the same verdict.
pub proof fn law_update_same_address_same_verdict(
    s1: Seq<char>,
    s2: Seq<char>,
    d1: UpdateCheck,
    d2: UpdateCheck,
    a1: int,
    b1: int,
    a2: int,
    b2: int,
)
    requires
        is_update_check(Some(s1), d1),
        is_update_check(Some(s2), d2),
        first_index(s1, FIRST_MARK@) == Some(a1),
        first_index(s1, SECOND_MARK@) == Some(b1),
        first_index(s2, FIRST_MARK@) == Some(a2),
        first_index(s2, SECOND_MARK@) == Some(b2),
        s1.subrange(a1 + 9, b1) == s2.subrange(a2 + 9, b2),
    ensures
        (d1 is UpToDate) == (d2 is UpToDate),
        (d1 is NewVersion) == (d2 is NewVersion),
{
    law_update_follows_address(s1, d1, a1, b1);
    law_update_follows_address(s2, d2, a2, b2);
}

/// A release page without both address marks, or no page at all, is a
/// network problem.
pub proof fn law_update_without_address(page: Option<Seq<char>>, d: UpdateCheck)
    requires
        is_update_check(page, d),
        page matches Some(s) ==> (first_index(s, FIRST_MARK@) is None || first_index(
            s,
            SECOND_MARK@,
        ) is None),
    ensures
        d is NetworkProblem,
{
}

// ---------------------------------------------------------------------------
// A notice's text
// ---------------------------------------------------------------------------

/// The text lines of nodes that follow one another follow one another: the
/// lines keep the order of the nodes.
pub proof fn law_texts_keep_order(a: Seq<Option<Seq<char>>>, b: Seq<Option<Seq<char>>>)
    ensures
        texts_of(a + b) == texts_of(a) + texts_of(b),
    decreases b.len(),
{
    if b.len() == 0 {
        assert(a + b =~= a);
        assert(texts_of(a) + texts_of(b) =~= texts_of(a));
    } else {
        assert((a + b).drop_last() =~= a + b.drop_last());
        assert((a + b).last() == b.last());
        law_texts_keep_order(a, b.drop_last());
        assert(texts_of(a) + texts_of(b) =~= (texts_of(a) + texts_of(b.drop_last())) + match b.last() {
            Some(t) => seq![t],
            None => Seq::<Seq<char>>::empty(),
        });
    }
}

/// A text node gives its text as one line; any other node gives none.
pub proof fn law_texts_of_one_node(t: Seq<char>)
    ensures
        texts_of(seq![Some(t)]) == seq![t],
        texts_of(seq![None::<Seq<char>>]) == Seq::<Seq<char>>::empty(),
        texts_of(Seq::<Option<Seq<char>>>::empty()) == Seq::<Seq<char>>::empty(),
{
    let e = Seq::<Option<Seq<char>>>::empty();
    assert(texts_of(e) == Seq::<Seq<char>>::empty());
    assert(seq![Some(t)].drop_last() =~= e);
    assert(seq![None::<Seq<char>>].drop_last() =~= e);
    assert(seq![Some(t)].last() == Some(t));
    assert(seq![None::<Seq<char>>].last() == None::<Seq<char>>);
    assert(Seq::<Seq<char>>::empty() + seq![t] =~= seq![t]);
    assert(Seq::<Seq<char>>::empty() + Seq::<Seq<char>>::empty() =~= Seq::<Seq<char>>::empty());
}

/// The first line of a notice's text is the text of its first text node,
/// whatever comes after it.
pub proof fn law_first_text_line(t: Seq<char>, rest: Seq<Option<Seq<char>>>)
    ensures
        texts_of(seq![Some(t)] + rest)[0] == t,
        texts_of(seq![Some(t)] + rest).len() >= 1,
{
    law_texts_keep_order(seq![Some(t)], rest);
    law_texts_of_one_node(t);
}

// ---------------------------------------------------------------------------
// The keyword filter
// ---------------------------------------------------------------------------

/// The notices kept among the first `n - 1` stay kept among the first `n`.
proof fn lemma_kept_grows(
    items: Seq<Item>,
    contents: Seq<Vec<String>>,
    keys: Seq<Seq<char>>,
    n: int,
    x: Item,
)
    requires
        n >= 1,
        kept(items, contents, keys, n - 1).contains(x),
    ensures
        kept(items, contents, keys, n).contains(x),
{
    let prev = kept(items, contents, keys, n - 1);
    let j = choose|j: int| 0 <= j < prev.len() && prev[j] == x;
    assert(kept(items, contents, keys, n)[j] == prev[j]);
}

/// A notice one line of whose text holds one of the keywords is kept.
pub proof fn law_kept_by_text_line(
    items: Seq<Item>,
    contents: Seq<Vec<String>>,
    keys: Seq<Seq<char>>,
    n: int,
    i: int,
    k: int,
    l: int,
)
    requires
        0 <= i < n <= items.len(),
        n <= contents.len(),
        0 <= k < keys.len(),
        0 <= l < contents[i]@.len(),
        contains(contents[i]@[l]@, keys[k]),
    ensures
        kept(items, contents, keys, n).contains(items[i]),
    decreases n,
{
    if i < n - 1 {
        law_kept_by_text_line(items, contents, keys, n - 1, i, k, l);
        lemma_kept_grows(items, contents, keys, n, items[i]);
    } else {
        let lines = views(contents[i]@);
        assert(lines[l] == contents[i]@[l]@);
        assert(mentions(items[i], lines, keys[k]));
        assert(wanted(items[i], lines, keys));
        let r = kept(items, contents, keys, n);
        assert(r[r.len() - 1] == items[i]);
    }
}

/// A notice whose title, department or date holds one of the keywords is
/// kept.
pub proof fn law_kept_by_fields(
    items: Seq<Item>,
    contents: Seq<Vec<String>>,
    keys: Seq<Seq<char>>,
    n: int,
    i: int,
    k: int,
)
    requires
        0 <= i < n <= items.len(),
        n <= contents.len(),
        0 <= k < keys.len(),
        contains(items[i].title@, keys[k]) || contains(items[i].source@, keys[k]) || contains(
            items[i].time@,
            keys[k],
        ),
    ensures
        kept(items, contents, keys, n).contains(items[i]),
    decreases n,
{
    if i < n - 1 {
        law_kept_by_fields(items, contents, keys, n - 1, i, k);
        lemma_kept_grows(items, contents, keys, n, items[i]);
    } else {
        let lines = views(contents[i]@);
        assert(mentions(items[i], lines, keys[k]));
        assert(wanted(items[i], lines, keys));
        let r = kept(items, contents, keys, n);
        assert(r[r.len() - 1] == items[i]);
    }
}

/// Every kept notice is one of the given notices that mentions a keyword in
/// its title, department, date or a line of its text.
pub proof fn law_kept_only_mentioned(
    items: Seq<Item>,
    contents: Seq<Vec<String>>,
    keys: Seq<Seq<char>>,
    n: int,
    j: int,
)
    requires
        0 <= n <= items.len(),
        n <= contents.len(),
        0 <= j < kept(items, contents, keys, n).len(),
    ensures
        exists|i: int, k: int|
            0 <= i < n && 0 <= k < keys.len() && kept(items, contents, keys, n)[j] == items[i] && (
            contains(items[i].title@, keys[k]) || contains(items[i].source@, keys[k]) || contains(
                items[i].time@,
                keys[k],
            ) || exists|l: int|
                0 <= l < contents[i]@.len() && contains(#[trigger] contents[i]@[l]@, keys[k])),
    decreases n,
{
    let prev = kept(items, contents, keys, n - 1);
    let r = kept(items, contents, keys, n);
    if j < prev.len() {
        law_kept_only_mentioned(items, contents, keys, n - 1, j);
        assert(r[j] == prev[j]);
        let (i, k) = choose|i: int, k: int|
            0 <= i < n - 1 && 0 <= k < keys.len() && prev[j] == items[i] && (contains(
                items[i].title@,
                keys[k],
            ) || contains(items[i].source@, keys[k]) || contains(items[i].time@, keys[k])
                || exists|l: int|
                0 <= l < contents[i]@.len() && contains(#[trigger] contents[i]@[l]@, keys[k]));
        assert(0 <= i < n);
    } else {
        let i = n - 1;
        let lines = views(contents[i]@);
        assert(r[j] == items[i]);
        assert(wanted(items[i], lines, keys));
        let k = choose|k: int| 0 <= k < keys.len() && mentions(items[i], lines, #[trigger] keys[k]);
        if !(contains(items[i].title@, keys[k]) || contains(items[i].source@, keys[k]) || contains(
            items[i].time@,
            keys[k],
        )) {
            let l = choose|l: int| 0 <= l < lines.len() && contains(#[trigger] lines[l], keys[k]);
            assert(lines[l] == contents[i]@[l]@);
        }
    }
}

// ---------------------------------------------------------------------------
// The search
// ---------------------------------------------------------------------------

/// A search finds a row whose title, department or date holds the search
/// text.
pub proof fn law_search_finds_shown_columns(t: Seq<Vec<String>>, r: int, code: Seq<char>, c: int)
    requires
        0 <= c < 3,
        contains(cell(t, r, c), code),
    ensures
        row_found(t, r, code),
{
}

/// A row found by a search holds the search text in its title, department
/// or date.
pub proof fn law_search_hits_are_shown(t: Seq<Vec<String>>, r: int, code: Seq<char>)
    requires
        row_found(t, r, code),
    ensures
        exists|c: int| 0 <= c < 3 && contains(#[trigger] cell(t, r, c), code),
{
    if contains(cell(t, r, 0), code) {
        assert(contains(cell(t, r, 0), code));
    } else if contains(cell(t, r, 1), code) {
        assert(contains(cell(t, r, 1), code));
    } else {
        assert(contains(cell(t, r, 2), code));
    }
}

/// Whether a search finds a row depends only on its title, department and
/// date, not on its link or mark.
pub proof fn law_search_ignores_hidden_columns(
    t1: Seq<Vec<String>>,
    r1: int,
    t2: Seq<Vec<String>>,
    r2: int,
    code: Seq<char>,
)
    requires
        forall|c: int| 0 <= c < 3 ==> #[trigger] cell(t1, r1, c) == cell(t2, r2, c),
    ensures
        row_found(t1, r1, code) == row_found(t2, r2, code),
{
    assert(cell(t1, r1, 0) == cell(t2, r2, 0));
    assert(cell(t1, r1, 1) == cell(t2, r2, 1));
    assert(cell(t1, r1, 2) == cell(t2, r2, 2));
}

// ---------------------------------------------------------------------------
// Clicks on the table
// ---------------------------------------------------------------------------

/// A single right click empties the marks and opens the department's list
/// when the department column is clicked, and the notice's own link on any
/// other column.
pub proof fn law_right_click_opens(
    col: i32,
    title: Seq<char>,
    department: Seq<char>,
    link: Seq<char>,
    a: ClickAction,
)
    requires
        is_click_action(0, Button::Right, col, title, department, link, a),
    ensures
        a matches ClickAction::ClearMarks { open } && open is Some,
        col == 1 ==> (a matches ClickAction::ClearMarks { open } && open matches Some(u) && u@
            == DEPARTMENT_URL_PREFIX@ + department),
        col != 1 ==> (a matches ClickAction::ClearMarks { open } && open matches Some(u) && u@
            == link),
{
}

/// A double left click shows the notice at the row's link, in a window
/// titled with the title cell and the department.
pub proof fn law_double_left_click_shows(
    col: i32,
    title: Seq<char>,
    department: Seq<char>,
    link: Seq<char>,
    a: ClickAction,
)
    requires
        is_click_action(1, Button::Left, col, title, department, link, a),
    ensures
        a matches ClickAction::ShowContent { url, title: t } && url@ == link && t@ == title
            + TITLE_SEPARATOR@ + department,
{
}

/// A single click with another button only empties the marks, and any other
/// click does nothing.
pub proof fn law_other_clicks(
    clicks: i32,
    button: Button,
    col: i32,
    title: Seq<char>,
    department: Seq<char>,
    link: Seq<char>,
    a: ClickAction,
)
    requires
        is_click_action(clicks, button, col, title, department, link, a),
        !(clicks == 1 && button == Button::Left),
        !(clicks == 0 && button == Button::Right),
    ensures
        clicks == 0 ==> a == (ClickAction::ClearMarks { open: None }),
        clicks != 0 ==> a is Nothing,
{
}

// ---------------------------------------------------------------------------
// New notices
// ---------------------------------------------------------------------------

/// A fetched notice whose title no shown title cell gives back (pin label
/// taken out) is reported new.
pub proof fn law_unshown_is_new(known: Seq<Seq<char>>, items: Seq<Item>, i: int)
    requires
        0 <= i < items.len(),
        forall|j: int|
            0 <= j < known.len() ==> replace_all(#[trigger] known[j], PIN_LABEL@, Seq::<char>::empty())
                != items[i].title@,
    ensures
        unseen(known, items).contains(items[i]),
    decreases items.len(),
{
    let rest = items.drop_last();
    let r = unseen(known, items);
    if i < items.len() - 1 {
        assert(rest[i] == items[i]);
        law_unshown_is_new(known, rest, i);
        let prev = unseen(known, rest);
        let j = choose|j: int| 0 <= j < prev.len() && prev[j] == items[i];
        assert(r[j] == prev[j]);
    } else {
        assert(!is_listed(known, items[i].title@));
        assert(r[r.len() - 1] == items[i]);
    }
}

/// Every notice reported new is one of the fetched notices, and no shown
/// title cell gives its title back.
pub proof fn law_new_is_unshown(known: Seq<Seq<char>>, items: Seq<Item>, m: int)
    requires
        0 <= m < unseen(known, items).len(),
    ensures
        items.contains(unseen(known, items)[m]),
        forall|j: int|
            0 <= j < known.len() ==> replace_all(#[trigger] known[j], PIN_LABEL@, Seq::<char>::empty())
                != unseen(known, items)[m].title@,
    decreases items.len(),
{
    let rest = items.drop_last();
    let prev = unseen(known, rest);
    let r = unseen(known, items);
    if m < prev.len() {
        law_new_is_unshown(known, rest, m);
        assert(r[m] == prev[m]);
        let j = choose|j: int| 0 <= j < rest.len() && rest[j] == prev[m];
        assert(items[j] == rest[j]);
    } else {
        assert(r[m] == items[items.len() - 1]);
        assert(!is_listed(known, items[items.len() - 1].title@));
        assert(items[items.len() - 1] == items.last());
        assert forall|j: int| 0 <= j < known.len() implies replace_all(
            #[trigger] known[j],
            PIN_LABEL@,
            Seq::<char>::empty(),
        ) != r[m].title@ by {
            assert(stripped(known[j]) == replace_all(known[j], PIN_LABEL@, Seq::<char>::empty()));
        }
    }
}

// ---------------------------------------------------------------------------
// The notice table's order
// ---------------------------------------------------------------------------

/// Notice `j` of complete page `i` sits at position `30 * i + j` of the
/// assembled table: the pages follow one another in order.
pub proof fn law_joined_position(pages: Seq<Vec<Item>>, k: int, i: int, j: int)
    requires
        0 <= i < k <= pages.len(),
        0 <= j < ITEMS_PER_PAGE,
        forall|p: int| 0 <= p < k ==> page_complete(#[trigger] pages[p]),
    ensures
        joined(pages, k)[i * ITEMS_PER_PAGE + j] == pages[i]@[j],
    decreases k,
{
    law_full_table_size(pages, k - 1);
    if i < k - 1 {
        law_joined_position(pages, k - 1, i, j);
        assert(i * ITEMS_PER_PAGE + j < (k - 1) * ITEMS_PER_PAGE) by (nonlinear_arith)
            requires
                i < k - 1,
                j < ITEMS_PER_PAGE,
        ;
    } else {
        assert(page_complete(pages[i]));
    }
}

// ---------------------------------------------------------------------------
// The notice window's text
// ---------------------------------------------------------------------------

/// The window shows the lines in their order: the text of lines that follow
/// one another is their texts one after the other.
pub proof fn law_joined_text_order(a: Seq<Seq<char>>, b: Seq<Seq<char>>)
    ensures
        joined_text(a + b) == joined_text(a) + joined_text(b),
    decreases b.len(),
{
    if b.len() == 0 {
        assert(a + b =~= a);
        assert(joined_text(a) + joined_text(b) =~= joined_text(a));
    } else {
        assert((a + b).drop_last() =~= a + b.drop_last());
        assert((a + b).last() == b.last());
        law_joined_text_order(a, b.drop_last());
        assert(joined_text(a) + joined_text(b) =~= (joined_text(a) + joined_text(b.drop_last()))
            + b.last());
    }
}

/// One line shows as itself.
pub proof fn law_joined_text_one_line(l: Seq<char>)
    ensures
        joined_text(seq![l]) == l,
{
    assert(seq![l].drop_last() =~= Seq::<Seq<char>>::empty());
    assert(joined_text(Seq::<Seq<char>>::empty()) == Seq::<char>::empty());
    assert(Seq::<char>::empty() + l =~= l);
}

// ---------------------------------------------------------------------------
// Painting
// ---------------------------------------------------------------------------

/// Unselected neighbouring rows are painted in different colours, and a
/// selected cell always in the selection colour.
pub proof fn law_rows_are_striped(row: i32)
    requires
        0 <= row < i32::MAX,
    ensures
        cell_background(row, false) != cell_background((row + 1) as i32, false),
        cell_background(row, true) == cell_background((row + 1) as i32, true),
{
}

/// A row found by a search is painted red in every column, whatever it shows.
pub proof fn law_found_rows_are_red(txt: Seq<char>, col: i32)
    ensures
        cell_ink(txt, col, true) == Ink::Red,
        forall|c: i32, s: Seq<char>| cell_ink(s, c, false) != Ink::Red,
{
}

} // verus!
