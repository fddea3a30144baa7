//! The store's collections as one document for others to read.

use vstd::prelude::*;
use crate::models::{ApprovedTag, Group, Image, TagSuggestion, TagUpvote};
use crate::services::StoreView;
use crate::table::{views, Table};

verus! {

/// The five collections of a store, lent out for reading.
pub struct AnnotationsExport<'a> {
    pub groups: &'a Table<Group>,
    pub images: &'a Table<Image>,
    pub tag_suggestions: &'a Table<TagSuggestion>,
    pub approved_tags: &'a Table<ApprovedTag>,
    pub tag_upvotes: &'a Table<TagUpvote>,
}

impl<'a> View for AnnotationsExport<'a> {
    type V = StoreView;

    open spec fn view(&self) -> StoreView {
        StoreView {
            groups: views(self.groups@),
            images: views(self.images@),
            tag_suggestions: views(self.tag_suggestions@),
            approved_tags: views(self.approved_tags@),
            tag_upvotes: views(self.tag_upvotes@),
        }
    }
}

} // verus!
