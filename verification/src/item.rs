use vstd::prelude::*;

verus! {

/// The version string that the update check compares against.
pub const VERSION: &'static str = "1.5.4";

/// One notice of the OA portal's list pages.
#[derive(Clone, Debug, PartialEq, Eq)]
pub struct Item {
    /// Title of the notice.
    pub title: String,
    /// Publication time, as the portal prints it.
    pub time: String,
    /// Department that published the notice.
    pub source: String,
    /// Absolute link to the notice's page.
    pub href: String,
    /// Whether the portal pins the notice at the top.
    pub is_top: bool,
}

impl Item {
    /// A copy of the item, field by field.
    pub fn duplicate(&self) -> (r: Item)
        ensures
            r == *self,
    {
        Item {
            title: self.title.clone(),
            time: self.time.clone(),
            source: self.source.clone(),
            href: self.href.clone(),
            is_top: self.is_top,
        }
    }
}

} // verus!
