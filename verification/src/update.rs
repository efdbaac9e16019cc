//! The decision of the update check: what the project's release page says
//! about newer versions.
use vstd::prelude::*;
use crate::item::VERSION;
use crate::text::{
    chars_of, concat_str, contains, contains_str, first_index, index_of, lemma_first_index_contains,
    substring,
};

verus! {

/// Opens the address of the newest release.
pub const FIRST_MARK: &'static str = "@@first@@";

/// Closes the address of the newest release.
pub const SECOND_MARK: &'static str = "@@second@@";

/// Opens the change log of the newest release.
pub const THIRD_MARK: &'static str = "@@third@@";

/// Closes the change log of the newest release.
pub const FOUR_MARK: &'static str = "@@four@@";

/// The question put to the user when a newer release exists.
pub const UPDATE_QUESTION: &'static str = "有最新版，你要更新吗？";

/// What the update check concludes.
#[derive(Debug, PartialEq, Eq)]
pub enum UpdateCheck {
    /// The release page could not be read.
    NetworkProblem,
    /// The running version is the newest.
    UpToDate,
    /// A newer release can be downloaded at `url`; `message` asks the user.
    NewVersion { url: String, message: String },
}

/// The text between the end of the first `open` mark (taken as nine
/// characters long) and the first `close` mark, if both marks occur.
pub open spec fn marked(s: Seq<char>, open: Seq<char>, close: Seq<char>) -> Option<Seq<char>> {
    match (first_index(s, open), first_index(s, close)) {
        (Some(a), Some(b)) => Some(s.subrange(a + 9, b)),
        _ => None,
    }
}

/// Both marks occur, and the first does not end after the second begins.
pub open spec fn marks_ordered(s: Seq<char>, open: Seq<char>, close: Seq<char>) -> bool {
    match (first_index(s, open), first_index(s, close)) {
        (Some(a), Some(b)) => a + 9 <= b,
        _ => true,
    }
}

/// The address of the newest release on the page `s`.
pub open spec fn release_address(s: Seq<char>) -> Option<Seq<char>> {
    marked(s, FIRST_MARK@, SECOND_MARK@)
}

/// The change log of the newest release on the page `s`.
pub open spec fn release_log(s: Seq<char>) -> Option<Seq<char>> {
    marked(s, THIRD_MARK@, FOUR_MARK@)
}

/// The page `s` can be cut where the check cuts it: the address marks in
/// order, and, when the address does not name the running version, the
/// change log marks in order.
pub open spec fn release_page_ok(s: Seq<char>) -> bool {
    &&& marks_ordered(s, FIRST_MARK@, SECOND_MARK@)
    &&& (release_address(s) matches Some(a) && !contains(a, VERSION@)) ==> marks_ordered(
        s,
        THIRD_MARK@,
        FOUR_MARK@,
    )
}

/// `d` is the conclusion for the fetched release page `page`.
pub open spec fn is_update_check(page: Option<Seq<char>>, d: UpdateCheck) -> bool {
    match page {
        None => d is NetworkProblem,
        Some(s) => match release_address(s) {
            None => d is NetworkProblem,
            Some(a) => if contains(a, VERSION@) {
                d is UpToDate
            } else {
                match d {
                    UpdateCheck::NewVersion { url, message } => url@ == a && message@
                        == UPDATE_QUESTION@ + match release_log(s) {
                        Some(log) => log,
                        None => Seq::<char>::empty(),
                    },
                    _ => false,
                }
            },
        },
    }
}

/// The view of a fetched page.
pub open spec fn page_view(page: &Option<String>) -> Option<Seq<char>> {
    match page {
        Some(s) => Some(s@),
        None => None,
    }
}

/// Whether the fetched release page can be cut where the check cuts it.
pub fn release_page_is_ok(page: &Option<String>) -> (b: bool)
    ensures
        b == (page_view(page) matches Some(s) ==> release_page_ok(s)),
{
    match page {
        None => true,
        Some(s) => {
            let v = chars_of(s.as_str());
            proof {
                lemma_first_index_contains(s@, FIRST_MARK@);
                lemma_first_index_contains(s@, SECOND_MARK@);
                lemma_first_index_contains(s@, THIRD_MARK@);
                lemma_first_index_contains(s@, FOUR_MARK@);
            }
            let first = index_of(&v, &chars_of(FIRST_MARK));
            let second = index_of(&v, &chars_of(SECOND_MARK));
            match (first, second) {
                (Some(a), Some(b)) => {
                    if a > b || b - a < 9 {
                        return false;
                    }
                    let address = substring(&v, a + 9, b);
                    if contains_str(address.as_str(), VERSION) {
                        return true;
                    }
                },
                _ => {
                    return true;
                },
            }
            let third = index_of(&v, &chars_of(THIRD_MARK));
            let four = index_of(&v, &chars_of(FOUR_MARK));
            match (third, four) {
                (Some(c), Some(d)) => c <= d && d - c >= 9,
                _ => true,
            }
        },
    }
}

/// What the update check concludes from the fetched release page; no page
/// means the network failed.
pub fn update_decision(page: &Option<String>) -> (d: UpdateCheck)
    requires
        page_view(page) matches Some(s) ==> release_page_ok(s),
    ensures
        is_update_check(page_view(page), d),
{
    match page {
        None => UpdateCheck::NetworkProblem,
        Some(s) => {
            let v = chars_of(s.as_str());
            proof {
                lemma_first_index_contains(s@, FIRST_MARK@);
                lemma_first_index_contains(s@, SECOND_MARK@);
                lemma_first_index_contains(s@, THIRD_MARK@);
                lemma_first_index_contains(s@, FOUR_MARK@);
            }
            let first = index_of(&v, &chars_of(FIRST_MARK));
            let second = index_of(&v, &chars_of(SECOND_MARK));
            match (first, second) {
                (Some(a), Some(b)) => {
                    let address = substring(&v, a + 9, b);
                    if contains_str(address.as_str(), VERSION) {
                        UpdateCheck::UpToDate
                    } else {
                        let third = index_of(&v, &chars_of(THIRD_MARK));
                        let four = index_of(&v, &chars_of(FOUR_MARK));
                        let message = match (third, four) {
                            (Some(c), Some(d)) => {
                                let log = substring(&v, c + 9, d);
                                concat_str(UPDATE_QUESTION, log.as_str())
                            },
                            _ => {
                                let m = UPDATE_QUESTION.to_owned();
                                assert(m@ =~= UPDATE_QUESTION@ + Seq::<char>::empty());
                                m
                            },
                        };
                        UpdateCheck::NewVersion { url: address, message }
                    }
                },
                _ => UpdateCheck::NetworkProblem,
            }
        },
    }
}

} // verus!
