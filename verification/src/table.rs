//! The notice table as the window shows it: one row of five text cells per
//! notice (title, department, date, link, search mark), and what the
//! notifier does to it: filling, shifting, searching, and finding the
//! notices that are not in it yet.
use vstd::prelude::*;
use crate::item::Item;
use crate::text::{
    concat_str, contains, contains_str, replace_all, replace_str, views,
};

verus! {

/// How many cells a row of the table has.
pub const COLUMNS: usize = 5;

/// The cell that holds a notice's title.
pub const TITLE_COLUMN: usize = 0;

/// The cell that holds a notice's department.
pub const SOURCE_COLUMN: usize = 1;

/// The cell that holds a notice's date.
pub const TIME_COLUMN: usize = 2;

/// The (hidden) cell that holds a notice's link.
pub const LINK_COLUMN: usize = 3;

/// The (hidden) cell that marks a row found by a search.
pub const MARK_COLUMN: usize = 4;

/// What the title cell of a pinned notice starts with.
pub const PIN_LABEL: &'static str = "[置顶]";

/// The content of the mark cell of a row found by a search.
pub const FOUND_MARK: &'static str = "f";

/// The empty cell.
pub const BLANK: &'static str = "";

/// Every row of the table has its five cells.
pub open spec fn table_wf(t: Seq<Vec<String>>) -> bool {
    forall|r: int| 0 <= r < t.len() ==> (#[trigger] t[r])@.len() == COLUMNS
}

/// The text of cell `c` of row `r`.
pub open spec fn cell(t: Seq<Vec<String>>, r: int, c: int) -> Seq<char> {
    t[r]@[c]@
}

/// The title cell of a notice: its title, behind the pin label if pinned.
pub open spec fn title_label(it: Item) -> Seq<char> {
    if it.is_top {
        PIN_LABEL@ + it.title@
    } else {
        it.title@
    }
}

/// The row of a notice.
pub open spec fn row_of(it: Item) -> Seq<Seq<char>> {
    seq![title_label(it), it.source@, it.time@, it.href@, Seq::<char>::empty()]
}

/// Whether every row of the table has its five cells.
pub fn table_wf_rows(t: &Vec<Vec<String>>) -> (b: bool)
    ensures
        b == table_wf(t@),
{
    let n = t.len();
    for r in 0..n
        invariant
            n == t@.len(),
            forall|i: int| 0 <= i < r ==> (#[trigger] t@[i])@.len() == COLUMNS,
    {
        if t[r].len() != COLUMNS {
            return false;
        }
    }
    true
}

/// The title cell of a notice.
pub fn title_cell(it: &Item) -> (r: String)
    ensures
        r@ == title_label(*it),
{
    if it.is_top {
        concat_str(PIN_LABEL, it.title.as_str())
    } else {
        it.title.clone()
    }
}

/// The row of a notice.
pub fn item_row(it: &Item) -> (r: Vec<String>)
    ensures
        views(r@) == row_of(*it),
{
    proof {
        reveal_strlit("");
        assert(BLANK@ =~= Seq::<char>::empty());
    }
    let mut r: Vec<String> = Vec::new();
    r.push(title_cell(it));
    r.push(it.source.clone());
    r.push(it.time.clone());
    r.push(it.href.clone());
    r.push(BLANK.to_owned());
    assert(views(r@) =~= row_of(*it));
    r
}

/// Writes `value` into cell `c` of row `r`.
fn set_cell(table: &mut Vec<Vec<String>>, r: usize, c: usize, value: String)
    requires
        r < old(table)@.len(),
        c < old(table)@[r as int]@.len(),
    ensures
        final(table)@.len() == old(table)@.len(),
        forall|i: int| 0 <= i < old(table)@.len() && i != r ==> final(table)@[i] == old(table)@[i],
        final(table)@[r as int]@ == old(table)@[r as int]@.update(c as int, value),
        final(table)@[r as int]@.len() == old(table)@[r as int]@.len(),
        final(table)@[r as int]@[c as int] == value,
        forall|k: int|
            0 <= k < old(table)@[r as int]@.len() && k != c ==> #[trigger] final(table)@[r as int]@[k]
                == old(table)@[r as int]@[k],
{
    let mut row: Vec<String> = Vec::new();
    table.set_and_swap(r, &mut row);
    row.set(c, value);
    table.set_and_swap(r, &mut row);
}

/// Writes the rows of `items` into the first rows of the table, one row per
/// notice; the other rows are left as they are.
pub fn fill_rows(table: &mut Vec<Vec<String>>, items: &Vec<Item>)
    requires
        items@.len() <= old(table)@.len(),
    ensures
        final(table)@.len() == old(table)@.len(),
        forall|r: int| 0 <= r < items@.len() ==> views((#[trigger] final(table)@[r])@) == row_of(
            items@[r],
        ),
        forall|r: int|
            items@.len() <= r < old(table)@.len() ==> #[trigger] final(table)@[r] == old(table)@[r],
        table_wf(old(table)@) ==> table_wf(final(table)@),
{
    let n = items.len();
    for i in 0..n
        invariant
            n == items@.len(),
            n <= old(table)@.len(),
            table@.len() == old(table)@.len(),
            forall|r: int| 0 <= r < i ==> views((#[trigger] table@[r])@) == row_of(items@[r]),
            forall|r: int| i <= r < old(table)@.len() ==> #[trigger] table@[r] == old(table)@[r],
    {
        let row = item_row(&items[i]);
        table.set(i, row);
    }
    proof {
        if table_wf(old(table)@) {
            assert forall|r: int| 0 <= r < table@.len() implies (#[trigger] table@[r])@.len()
                == COLUMNS by {
                if r < n {
                    assert(views(table@[r]@).len() == 5);
                } else {
                    assert(table@[r] == old(table)@[r]);
                }
            }
        }
    }
}

/// Writes the title, department, date and link of each of `items` into the
/// first rows of the table, one row per notice; mark cells and the other
/// rows are left as they are.
pub fn fill_listing(table: &mut Vec<Vec<String>>, items: &Vec<Item>)
    requires
        table_wf(old(table)@),
        items@.len() <= old(table)@.len(),
    ensures
        final(table)@.len() == old(table)@.len(),
        table_wf(final(table)@),
        forall|r: int, c: int|
            0 <= r < items@.len() && 0 <= c < MARK_COLUMN ==> #[trigger] cell(final(table)@, r, c)
                == row_of(items@[r])[c],
        forall|r: int| 0 <= r < items@.len() ==> #[trigger] cell(final(table)@, r, 4) == cell(
            old(table)@,
            r,
            4,
        ),
        forall|r: int|
            items@.len() <= r < old(table)@.len() ==> #[trigger] final(table)@[r] == old(table)@[r],
{
    let n = items.len();
    for i in 0..n
        invariant
            n == items@.len(),
            n <= old(table)@.len(),
            table@.len() == old(table)@.len(),
            table_wf(old(table)@),
            table_wf(table@),
            forall|r: int, c: int|
                0 <= r < i && 0 <= c < MARK_COLUMN ==> #[trigger] cell(table@, r, c) == row_of(
                    items@[r],
                )[c],
            forall|r: int| 0 <= r < i ==> #[trigger] cell(table@, r, 4) == cell(old(table)@, r, 4),
            forall|r: int| i <= r < old(table)@.len() ==> #[trigger] table@[r] == old(table)@[r],
    {
        let it = &items[i];
        assert(table@[i as int]@.len() == COLUMNS);
        let mut row: Vec<String> = Vec::new();
        row.push(title_cell(it));
        row.push(it.source.clone());
        row.push(it.time.clone());
        row.push(it.href.clone());
        row.push(table[i][MARK_COLUMN].clone());
        let ghost prev = table@;
        let ghost new_row = row@;
        table.set(i, row);
        assert forall|r: int, c: int|
            0 <= r <= i && 0 <= c < MARK_COLUMN implies #[trigger] cell(table@, r, c) == row_of(
            items@[r],
        )[c] by {
            if r < i {
                assert(table@[r] == prev[r]);
                assert(cell(prev, r, c) == row_of(items@[r])[c]);
            } else {
                assert(table@[r]@ == new_row);
            }
        }
        assert forall|r: int| 0 <= r <= i implies #[trigger] cell(table@, r, 4) == cell(
            old(table)@,
            r,
            4,
        ) by {
            if r < i {
                assert(table@[r] == prev[r]);
                assert(cell(prev, r, 4) == cell(old(table)@, r, 4));
            } else {
                assert(prev[r] == old(table)@[r]);
            }
        }
        assert forall|r: int| 0 <= r < table@.len() implies (#[trigger] table@[r])@.len()
            == COLUMNS by {
            if r != i {
                assert(table@[r] == prev[r]);
            }
        }
    }
}

/// Empties the mark cell of every row.
pub fn clear_marks(table: &mut Vec<Vec<String>>)
    requires
        table_wf(old(table)@),
    ensures
        final(table)@.len() == old(table)@.len(),
        table_wf(final(table)@),
        forall|r: int, c: int|
            0 <= r < old(table)@.len() && 0 <= c < MARK_COLUMN ==> #[trigger] cell(
                final(table)@,
                r,
                c,
            ) == cell(old(table)@, r, c),
        forall|r: int| 0 <= r < old(table)@.len() ==> #[trigger] cell(final(table)@, r, 4)
            == Seq::<char>::empty(),
{
    proof {
        reveal_strlit("");
        assert(BLANK@ =~= Seq::<char>::empty());
    }
    let n = table.len();
    for i in 0..n
        invariant
            BLANK@ == Seq::<char>::empty(),
            n == old(table)@.len(),
            table@.len() == n,
            table_wf(table@),
            forall|r: int| i <= r < n ==> #[trigger] table@[r] == old(table)@[r],
            forall|r: int, c: int|
                0 <= r < i && 0 <= c < MARK_COLUMN ==> #[trigger] cell(table@, r, c) == cell(
                    old(table)@,
                    r,
                    c,
                ),
            forall|r: int| 0 <= r < i ==> #[trigger] cell(table@, r, 4) == Seq::<char>::empty(),
    {
        assert(table@[i as int]@.len() == COLUMNS);
        let ghost prev = table@;
        set_cell(table, i, MARK_COLUMN, BLANK.to_owned());
        assert forall|r: int, c: int|
            0 <= r <= i && 0 <= c < MARK_COLUMN implies #[trigger] cell(table@, r, c) == cell(
            old(table)@,
            r,
            c,
        ) by {
            if r < i {
                assert(table@[r] == prev[r]);
                assert(cell(prev, r, c) == cell(old(table)@, r, c));
            } else {
                assert(prev[r] == old(table)@[r]);
            }
        }
        assert forall|r: int| 0 <= r <= i implies #[trigger] cell(table@, r, 4)
            == Seq::<char>::empty() by {
            if r < i {
                assert(table@[r] == prev[r]);
                assert(cell(prev, r, 4) == Seq::<char>::empty());
            }
        }
        assert forall|r: int| 0 <= r < n implies (#[trigger] table@[r])@.len() == COLUMNS by {
            if r != i {
                assert(table@[r] == prev[r]);
            }
        }
    }
}

/// The row shows a match of the search text `code`: in its title, its
/// department or its date.
pub open spec fn row_found(t: Seq<Vec<String>>, r: int, code: Seq<char>) -> bool {
    contains(cell(t, r, 0), code) || contains(cell(t, r, 1), code) || contains(cell(t, r, 2), code)
}

/// A search: clears every mark, then, for a non-empty `code`, marks the rows
/// whose title, department or date contains it.
pub fn mark_matches(table: &mut Vec<Vec<String>>, code: &str)
    requires
        table_wf(old(table)@),
    ensures
        final(table)@.len() == old(table)@.len(),
        table_wf(final(table)@),
        forall|r: int, c: int|
            0 <= r < old(table)@.len() && 0 <= c < MARK_COLUMN ==> #[trigger] cell(
                final(table)@,
                r,
                c,
            ) == cell(old(table)@, r, c),
        forall|r: int|
            0 <= r < old(table)@.len() ==> #[trigger] cell(final(table)@, r, 4) == if code@.len()
                > 0 && row_found(old(table)@, r, code@) {
                FOUND_MARK@
            } else {
                Seq::<char>::empty()
            },
{
    clear_marks(table);
    if code.is_empty() {
        return;
    }
    let ghost cleared = table@;
    let n = table.len();
    for i in 0..n
        invariant
            n == old(table)@.len(),
            table@.len() == n,
            cleared.len() == n,
            code@.len() > 0,
            table_wf(table@),
            forall|r: int| i <= r < n ==> #[trigger] table@[r] == cleared[r],
            forall|r: int, c: int|
                0 <= r < n && 0 <= c < MARK_COLUMN ==> #[trigger] cell(cleared, r, c) == cell(
                    old(table)@,
                    r,
                    c,
                ),
            forall|r: int| 0 <= r < n ==> #[trigger] cell(cleared, r, 4) == Seq::<char>::empty(),
            forall|r: int, c: int|
                0 <= r < i && 0 <= c < MARK_COLUMN ==> #[trigger] cell(table@, r, c) == cell(
                    old(table)@,
                    r,
                    c,
                ),
            forall|r: int|
                0 <= r < i ==> #[trigger] cell(table@, r, 4) == if row_found(
                    old(table)@,
                    r,
                    code@,
                ) {
                    FOUND_MARK@
                } else {
                    Seq::<char>::empty()
                },
    {
        assert(table@[i as int]@.len() == COLUMNS);
        assert(cell(cleared, i as int, 0) == cell(old(table)@, i as int, 0));
        assert(cell(cleared, i as int, 1) == cell(old(table)@, i as int, 1));
        assert(cell(cleared, i as int, 2) == cell(old(table)@, i as int, 2));
        assert(cell(cleared, i as int, 4) == Seq::<char>::empty());
        let ghost prev = table@;
        let found = contains_str(table[i][0].as_str(), code) || contains_str(
            table[i][1].as_str(),
            code,
        ) || contains_str(table[i][2].as_str(), code);
        if found {
            set_cell(table, i, MARK_COLUMN, FOUND_MARK.to_owned());
        }
        assert forall|r: int, c: int|
            0 <= r <= i && 0 <= c < MARK_COLUMN implies #[trigger] cell(table@, r, c) == cell(
            old(table)@,
            r,
            c,
        ) by {
            if r < i {
                assert(table@[r] == prev[r]);
                assert(cell(prev, r, c) == cell(old(table)@, r, c));
            } else {
                assert(cell(cleared, r, c) == cell(old(table)@, r, c));
            }
        }
        assert forall|r: int|
            0 <= r <= i implies #[trigger] cell(table@, r, 4) == if row_found(
            old(table)@,
            r,
            code@,
        ) {
            FOUND_MARK@
        } else {
            Seq::<char>::empty()
        } by {
            if r < i {
                assert(table@[r] == prev[r]);
                assert(cell(prev, r, 4) == if row_found(old(table)@, r, code@) {
                    FOUND_MARK@
                } else {
                    Seq::<char>::empty()
                });
            }
        }
        assert forall|r: int| 0 <= r < n implies (#[trigger] table@[r])@.len() == COLUMNS by {
            if r != i {
                assert(table@[r] == prev[r]);
            }
        }
        assert forall|r: int| i < r < n implies #[trigger] table@[r] == cleared[r] by {
            assert(table@[r] == prev[r]);
        }
    }
}

/// Moves the title, department and date of every row from row `now_len - 1`
/// on down by `new_count` rows, taking them from `new_count` rows above, and
/// empties the mark cells of those rows; their link cells stay.
pub fn shift_rows(table: &mut Vec<Vec<String>>, now_len: usize, new_count: usize)
    requires
        table_wf(old(table)@),
        1 <= now_len,
        old(table)@.len() >= now_len ==> new_count < now_len,
    ensures
        final(table)@.len() == old(table)@.len(),
        table_wf(final(table)@),
        forall|r: int| 0 <= r < now_len - 1 && r < old(table)@.len() ==> #[trigger] final(table)@[r]
            == old(table)@[r],
        forall|r: int, c: int|
            now_len - 1 <= r < old(table)@.len() && 0 <= c < LINK_COLUMN ==> #[trigger] cell(
                final(table)@,
                r,
                c,
            ) == cell(old(table)@, r - new_count, c),
        forall|r: int|
            now_len - 1 <= r < old(table)@.len() ==> #[trigger] cell(final(table)@, r, 3) == cell(
                old(table)@,
                r,
                3,
            ),
        forall|r: int|
            now_len - 1 <= r < old(table)@.len() ==> #[trigger] cell(final(table)@, r, 4)
                == Seq::<char>::empty(),
{
    proof {
        reveal_strlit("");
        assert(BLANK@ =~= Seq::<char>::empty());
    }
    let rows = table.len();
    let low = now_len - 1;
    if rows <= low {
        return;
    }
    let mut n = rows;
    while n > low
        invariant
            rows == old(table)@.len(),
            table@.len() == rows,
            table_wf(old(table)@),
            table_wf(table@),
            low + 1 == now_len,
            low < rows,
            new_count <= low,
            low <= n <= rows,
            BLANK@ == Seq::<char>::empty(),
            forall|r: int| 0 <= r < n ==> #[trigger] table@[r] == old(table)@[r],
            forall|r: int, c: int|
                n <= r < rows && 0 <= c < LINK_COLUMN ==> #[trigger] cell(table@, r, c) == cell(
                    old(table)@,
                    r - new_count,
                    c,
                ),
            forall|r: int| n <= r < rows ==> #[trigger] cell(table@, r, 3) == cell(old(table)@, r, 3),
            forall|r: int| n <= r < rows ==> #[trigger] cell(table@, r, 4) == Seq::<char>::empty(),
        decreases n,
    {
        n = n - 1;
        let from = n - new_count;
        assert(table@[from as int] == old(table)@[from as int]);
        assert(table@[n as int] == old(table)@[n as int]);
        let mut row: Vec<String> = Vec::new();
        row.push(table[from][0].clone());
        row.push(table[from][1].clone());
        row.push(table[from][2].clone());
        row.push(table[n][3].clone());
        row.push(BLANK.to_owned());
        let ghost prev = table@;
        let ghost new_row = row@;
        table.set(n, row);
        assert(views(new_row) =~= seq![
            cell(old(table)@, n - new_count, 0),
            cell(old(table)@, n - new_count, 1),
            cell(old(table)@, n - new_count, 2),
            cell(old(table)@, n as int, 3),
            Seq::<char>::empty(),
        ]);
        assert forall|r: int, c: int|
            n <= r < rows && 0 <= c < LINK_COLUMN implies #[trigger] cell(table@, r, c) == cell(
            old(table)@,
            r - new_count,
            c,
        ) by {
            if r > n {
                assert(table@[r] == prev[r]);
                assert(cell(prev, r, c) == cell(old(table)@, r - new_count, c));
            } else {
                assert(views(new_row)[c] == new_row[c]@);
            }
        }
        assert forall|r: int| n <= r < rows implies #[trigger] cell(table@, r, 3) == cell(
            old(table)@,
            r,
            3,
        ) by {
            if r > n {
                assert(table@[r] == prev[r]);
                assert(cell(prev, r, 3) == cell(old(table)@, r, 3));
            } else {
                assert(views(new_row)[3] == new_row[3]@);
            }
        }
        assert forall|r: int| n <= r < rows implies #[trigger] cell(table@, r, 4)
            == Seq::<char>::empty() by {
            if r > n {
                assert(table@[r] == prev[r]);
                assert(cell(prev, r, 4) == Seq::<char>::empty());
            } else {
                assert(views(new_row)[4] == new_row[4]@);
            }
        }
        assert forall|r: int| 0 <= r < rows implies (#[trigger] table@[r])@.len() == COLUMNS by {
            if r != n {
                assert(table@[r] == prev[r]);
            }
        }
    }
}

/// The first-column cells of the first `n` rows of a table.
pub open spec fn first_column(t: Seq<Vec<String>>, n: nat) -> Seq<Seq<char>> {
    Seq::new(n, |r: int| cell(t, r, 0))
}

/// The title cells that the fetched notices are checked against: those of
/// the first `n` rows, as many rows as notices were fetched.
pub fn known_titles(table: &Vec<Vec<String>>, n: usize) -> (r: Vec<String>)
    requires
        table_wf(table@),
        n <= table@.len(),
    ensures
        views(r@) == first_column(table@, n as nat),
{
    let mut r: Vec<String> = Vec::new();
    for i in 0..n
        invariant
            table_wf(table@),
            n <= table@.len(),
            views(r@) == first_column(table@, i as nat),
    {
        assert(table@[i as int]@.len() == COLUMNS);
        let ghost prev = views(r@);
        let title = table[i][TITLE_COLUMN].clone();
        assert(title@ == cell(table@, i as int, 0));
        r.push(title);
        assert(views(r@) =~= prev.push(cell(table@, i as int, 0)));
        assert(first_column(table@, (i + 1) as nat) =~= first_column(table@, i as nat).push(
            cell(table@, i as int, 0),
        ));
    }
    r
}

/// A first-column cell with the pin label taken out.
pub open spec fn stripped(cell: Seq<char>) -> Seq<char> {
    replace_all(cell, PIN_LABEL@, Seq::<char>::empty())
}

/// `title` is shown in one of the first-column cells `known`.
pub open spec fn is_listed(known: Seq<Seq<char>>, title: Seq<char>) -> bool {
    exists|j: int| 0 <= j < known.len() && stripped(known[j]) == title
}

/// The notices of `items` whose titles are not shown in `known`, in order.
pub open spec fn unseen(known: Seq<Seq<char>>, items: Seq<Item>) -> Seq<Item>
    decreases items.len(),
{
    if items.len() == 0 {
        Seq::<Item>::empty()
    } else {
        unseen(known, items.drop_last()) + if is_listed(known, items.last().title@) {
            Seq::<Item>::empty()
        } else {
            seq![items.last()]
        }
    }
}

/// The notices of `current` whose titles do not appear among the
/// first-column cells `known` of the table (pin labels taken out).
pub fn new_items(known: &Vec<String>, current: &Vec<Item>) -> (r: Vec<Item>)
    ensures
        r@ == unseen(views(known@), current@),
{
    proof {
        reveal_strlit("[置顶]");
        reveal_strlit("");
        assert(BLANK@ =~= Seq::<char>::empty());
    }
    let k = known.len();
    let mut titles: Vec<String> = Vec::new();
    for j in 0..k
        invariant
            PIN_LABEL@.len() > 0,
            BLANK@ == Seq::<char>::empty(),
            k == known@.len(),
            titles@.len() == j,
            forall|i: int| 0 <= i < j ==> (#[trigger] titles@[i])@ == stripped(known@[i]@),
    {
        titles.push(replace_str(known[j].as_str(), PIN_LABEL, BLANK));
    }
    let n = current.len();
    let mut r: Vec<Item> = Vec::new();
    assert(current@.take(0) =~= Seq::<Item>::empty());
    for i in 0..n
        invariant
            n == current@.len(),
            k == known@.len(),
            titles@.len() == k,
            forall|j: int| 0 <= j < k ==> (#[trigger] titles@[j])@ == stripped(known@[j]@),
            r@ == unseen(views(known@), current@.take(i as int)),
    {
        let mut listed = false;
        for j in 0..k
            invariant
                k == known@.len(),
                titles@.len() == k,
                i < n == current@.len(),
                forall|m: int| 0 <= m < k ==> (#[trigger] titles@[m])@ == stripped(known@[m]@),
                listed == exists|m: int| 0 <= m < j && stripped(known@[m]@) == current@[i as int].title@,
        {
            if titles[j] == current[i].title {
                listed = true;
            }
        }
        let ghost pre = current@.take(i + 1);
        assert(pre.drop_last() =~= current@.take(i as int));
        assert(listed == is_listed(views(known@), pre.last().title@)) by {
            if listed {
                let m = choose|m: int| 0 <= m < k && stripped(known@[m]@) == current@[i as int].title@;
                assert(stripped(views(known@)[m]) == current@[i as int].title@);
            }
            if is_listed(views(known@), pre.last().title@) {
                let m = choose|m: int| 0 <= m < views(known@).len() && stripped(views(known@)[m]) == pre.last().title@;
                assert(stripped(known@[m]@) == current@[i as int].title@);
            }
        }
        if !listed {
            r.push(current[i].duplicate());
        } else {
            assert(r@ =~= r@ + Seq::<Item>::empty());
        }
    }
    assert(current@.take(n as int) =~= current@);
    r
}

/// `new_t` is the table `old_t` after the fetched notices `now`, `k` of them
/// new, were put in: rows from `now.len() - 1` on moved down by `k` (title,
/// department and date; links stay; marks emptied), then the first
/// `now.len()` rows rewritten with the notices of `now`.
pub open spec fn is_update_of(
    new_t: Seq<Vec<String>>,
    old_t: Seq<Vec<String>>,
    now: Seq<Item>,
    k: int,
) -> bool {
    &&& new_t.len() == old_t.len()
    &&& forall|r: int| 0 <= r < now.len() ==> views((#[trigger] new_t[r])@) == row_of(now[r])
    &&& forall|r: int, c: int|
        now.len() <= r < old_t.len() && 0 <= c < LINK_COLUMN ==> #[trigger] cell(new_t, r, c)
            == cell(old_t, r - k, c)
    &&& forall|r: int|
        now.len() <= r < old_t.len() ==> #[trigger] cell(new_t, r, 3) == cell(old_t, r, 3)
    &&& forall|r: int|
        now.len() <= r < old_t.len() ==> #[trigger] cell(new_t, r, 4) == Seq::<char>::empty()
}

/// Puts the fetched notices `now`, `new_count` of which are new, into the
/// table: the older rows move down, the notices of `now` take the top rows.
pub fn update_table(table: &mut Vec<Vec<String>>, now: &Vec<Item>, new_count: usize)
    requires
        table_wf(old(table)@),
        1 <= now@.len() <= old(table)@.len(),
        new_count < now@.len(),
    ensures
        table_wf(final(table)@),
        is_update_of(final(table)@, old(table)@, now@, new_count as int),
{
    let ghost before = table@;
    shift_rows(table, now.len(), new_count);
    let ghost shifted = table@;
    fill_rows(table, now);
    proof {
        let n = now@.len();
        assert forall|r: int, c: int|
            n <= r < before.len() && 0 <= c < LINK_COLUMN implies #[trigger] cell(table@, r, c)
            == cell(before, r - new_count, c) by {
            assert(table@[r] == shifted[r]);
            assert(cell(shifted, r, c) == cell(before, r - new_count, c));
        }
        assert forall|r: int| n <= r < before.len() implies #[trigger] cell(table@, r, 3) == cell(
            before,
            r,
            3,
        ) by {
            assert(table@[r] == shifted[r]);
            assert(cell(shifted, r, 3) == cell(before, r, 3));
        }
        assert forall|r: int| n <= r < before.len() implies #[trigger] cell(table@, r, 4)
            == Seq::<char>::empty() by {
            assert(table@[r] == shifted[r]);
            assert(cell(shifted, r, 4) == Seq::<char>::empty());
        }
    }
}

} // verus!
