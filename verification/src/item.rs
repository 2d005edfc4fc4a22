use vstd::prelude::*;

verus! {

/// A detached copy of the counters of one stream at one instant.
///
/// `name` is the label that the stream was created with, `id` the label under
/// which the copy was asked for.
#[derive(Debug, PartialEq, Eq)]
pub struct Item {
    pub id: String,
    pub name: String,
    pub total: u64,
    pub size: u64,
    pub canceled: bool,
}

/// What an [`Item`] holds, as a mathematical value.
pub struct ItemView {
    pub id: Seq<char>,
    pub name: Seq<char>,
    pub total: u64,
    pub size: u64,
    pub canceled: bool,
}

impl View for Item {
    type V = ItemView;

    open spec fn view(&self) -> ItemView {
        ItemView {
            id: self.id@,
            name: self.name@,
            total: self.total,
            size: self.size,
            canceled: self.canceled,
        }
    }
}

} // verus!
