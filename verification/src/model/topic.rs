use vstd::prelude::*;

verus! {

/// A topic as a client submits it.
#[derive(Debug, Clone, PartialEq, Eq)]
pub struct TopicFront {
    pub user_id: Option<u64>,
    pub title: String,
    pub content: String,
    pub tags: String,
}

/// Mathematical model of a [`TopicFront`].
pub struct TopicFrontView {
    pub user_id: Option<u64>,
    pub title: Seq<char>,
    pub content: Seq<char>,
    pub tags: Seq<char>,
}

impl View for TopicFront {
    type V = TopicFrontView;

    open spec fn view(&self) -> TopicFrontView {
        TopicFrontView {
            user_id: self.user_id,
            title: self.title@,
            content: self.content@,
            tags: self.tags@,
        }
    }
}

/// A window into a listing.
#[derive(Debug, Clone, Copy, PartialEq, Eq, Structural)]
pub struct Pagination {
    pub current_page: u32,
    pub page_size: u32,
}

} // verus!
