//! The decisions of the periodic check for new notices: which new notices
//! the user's keywords let through, and in which order they are announced.
use vstd::prelude::*;
use crate::item::Item;
use crate::text::{contains, contains_str, split_words, views, words};

verus! {

/// The notice, or its text `lines`, mentions `key`: in its title, its
/// department, its date or one of the lines.
pub open spec fn mentions(it: Item, lines: Seq<Seq<char>>, key: Seq<char>) -> bool {
    ||| contains(it.title@, key)
    ||| contains(it.source@, key)
    ||| contains(it.time@, key)
    ||| exists|l: int| 0 <= l < lines.len() && contains(#[trigger] lines[l], key)
}

/// One of the keywords `keys` is mentioned by the notice or its text.
pub open spec fn wanted(it: Item, lines: Seq<Seq<char>>, keys: Seq<Seq<char>>) -> bool {
    exists|k: int| 0 <= k < keys.len() && mentions(it, lines, #[trigger] keys[k])
}

/// The first `n` notices of `items` that are wanted, in order; the text of
/// notice `i` is `contents[i]`.
pub open spec fn kept(
    items: Seq<Item>,
    contents: Seq<Vec<String>>,
    keys: Seq<Seq<char>>,
    n: int,
) -> Seq<Item>
    decreases n,
{
    if n <= 0 {
        Seq::<Item>::empty()
    } else {
        kept(items, contents, keys, n - 1) + if wanted(
            items[n - 1],
            views(contents[n - 1]@),
            keys,
        ) {
            seq![items[n - 1]]
        } else {
            Seq::<Item>::empty()
        }
    }
}

/// Whether the notice, or its text `lines`, mentions `key`.
pub fn item_mentions(it: &Item, lines: &Vec<String>, key: &str) -> (b: bool)
    ensures
        b == mentions(*it, views(lines@), key@),
{
    if contains_str(it.title.as_str(), key) || contains_str(it.source.as_str(), key)
        || contains_str(it.time.as_str(), key) {
        return true;
    }
    let n = lines.len();
    for l in 0..n
        invariant
            n == lines@.len(),
            forall|m: int| 0 <= m < l ==> !contains(#[trigger] views(lines@)[m], key@),
    {
        if contains_str(lines[l].as_str(), key) {
            assert(contains(views(lines@)[l as int], key@));
            return true;
        }
    }
    false
}

/// Whether one of the keywords `keys` is mentioned by the notice or its
/// text `lines`.
pub fn item_wanted(it: &Item, lines: &Vec<String>, keys: &Vec<String>) -> (b: bool)
    ensures
        b == wanted(*it, views(lines@), views(keys@)),
{
    let n = keys.len();
    for k in 0..n
        invariant
            n == keys@.len(),
            forall|m: int| 0 <= m < k ==> !mentions(*it, views(lines@), #[trigger] views(keys@)[m]),
    {
        if item_mentions(it, lines, keys[k].as_str()) {
            assert(mentions(*it, views(lines@), views(keys@)[k as int]));
            return true;
        }
    }
    false
}

/// The new notices that the user's keywords let through: all of them when
/// there are no keywords, else those that mention one of the keywords in
/// their title, department, date or text. `contents[i]` is the text of
/// notice `i`; it is read only when there are keywords.
pub fn filter_by_keywords(items: &Vec<Item>, keywords: &str, contents: &Vec<Vec<String>>) -> (r:
    Vec<Item>)
    requires
        words(keywords@).len() > 0 ==> contents@.len() == items@.len(),
    ensures
        words(keywords@).len() == 0 ==> r@ == items@,
        words(keywords@).len() > 0 ==> r@ == kept(
            items@,
            contents@,
            words(keywords@),
            items@.len() as int,
        ),
{
    let keys = split_words(keywords);
    let n = items.len();
    let mut r: Vec<Item> = Vec::new();
    if keys.len() == 0 {
        for i in 0..n
            invariant
                n == items@.len(),
                r@ == items@.take(i as int),
        {
            r.push(items[i].duplicate());
            assert(r@ =~= items@.take(i + 1));
        }
        assert(items@.take(n as int) =~= items@);
        return r;
    }
    for i in 0..n
        invariant
            n == items@.len(),
            contents@.len() == n,
            views(keys@) == words(keywords@),
            r@ == kept(items@, contents@, words(keywords@), i as int),
    {
        if item_wanted(&items[i], &contents[i], &keys) {
            r.push(items[i].duplicate());
        } else {
            assert(r@ =~= r@ + Seq::<Item>::empty());
        }
    }
    r
}

/// The notices in the order they are announced: the last first.
pub fn announcement_order(items: &Vec<Item>) -> (r: Vec<Item>)
    ensures
        r@ == items@.reverse(),
{
    let n = items.len();
    let mut r: Vec<Item> = Vec::new();
    for i in 0..n
        invariant
            n == items@.len(),
            r@.len() == i,
            forall|j: int| 0 <= j < i ==> r@[j] == items@[n - 1 - j],
    {
        r.push(items[n - 1 - i].duplicate());
    }
    assert(r@ =~= items@.reverse());
    r
}

} // verus!
