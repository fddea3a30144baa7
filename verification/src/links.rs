//! Which records belong together: the tests behind lookups and cascades.
//!
//! An image belongs to a group by its `group_id`, a suggestion and an
//! approved tag to an image by their `image_id`, an upvote to an approved tag
//! by its `tag_id`. Each test here reads one such link.

use vstd::prelude::*;
use crate::models::{ApprovedTag, Group, Image, TagSuggestion, TagUpvote};
use crate::table::Test;
use crate::text::{contains_text, texts};

verus! {

/// Groups that have `username` among their members.
pub struct HasMember<'a> {
    pub username: &'a str,
}

impl<'a> Test<Group> for HasMember<'a> {
    open spec fn passes(&self, value: Group) -> bool {
        value@.members.contains(self.username@)
    }

    fn check(&self, value: &Group) -> (passed: bool) {
        contains_text(&value.members, self.username)
    }
}

/// Images of the group `group_id`.
pub struct InGroup<'a> {
    pub group_id: &'a str,
}

impl<'a> Test<Image> for InGroup<'a> {
    open spec fn passes(&self, value: Image) -> bool {
        value@.group_id == self.group_id@
    }

    fn check(&self, value: &Image) -> (passed: bool) {
        *value.group_id.as_str() == *self.group_id
    }
}

/// Images of any of the groups `group_ids`.
pub struct InGroups<'a> {
    pub group_ids: &'a Vec<String>,
}

impl<'a> Test<Image> for InGroups<'a> {
    open spec fn passes(&self, value: Image) -> bool {
        texts(self.group_ids@).contains(value@.group_id)
    }

    fn check(&self, value: &Image) -> (passed: bool) {
        contains_text(self.group_ids, value.group_id.as_str())
    }
}

/// Suggestions and approved tags of the image `image_id`.
pub struct OfImage<'a> {
    pub image_id: &'a str,
}

impl<'a> Test<TagSuggestion> for OfImage<'a> {
    open spec fn passes(&self, value: TagSuggestion) -> bool {
        value@.image_id == self.image_id@
    }

    fn check(&self, value: &TagSuggestion) -> (passed: bool) {
        *value.image_id.as_str() == *self.image_id
    }
}

impl<'a> Test<ApprovedTag> for OfImage<'a> {
    open spec fn passes(&self, value: ApprovedTag) -> bool {
        value@.image_id == self.image_id@
    }

    fn check(&self, value: &ApprovedTag) -> (passed: bool) {
        *value.image_id.as_str() == *self.image_id
    }
}

/// Suggestions and approved tags of any of the images `image_ids`.
pub struct OfImages<'a> {
    pub image_ids: &'a Vec<String>,
}

impl<'a> Test<TagSuggestion> for OfImages<'a> {
    open spec fn passes(&self, value: TagSuggestion) -> bool {
        texts(self.image_ids@).contains(value@.image_id)
    }

    fn check(&self, value: &TagSuggestion) -> (passed: bool) {
        contains_text(self.image_ids, value.image_id.as_str())
    }
}

impl<'a> Test<ApprovedTag> for OfImages<'a> {
    open spec fn passes(&self, value: ApprovedTag) -> bool {
        texts(self.image_ids@).contains(value@.image_id)
    }

    fn check(&self, value: &ApprovedTag) -> (passed: bool) {
        contains_text(self.image_ids, value.image_id.as_str())
    }
}

/// Upvotes of the approved tag `tag_id`.
pub struct OfTag<'a> {
    pub tag_id: &'a str,
}

impl<'a> Test<TagUpvote> for OfTag<'a> {
    open spec fn passes(&self, value: TagUpvote) -> bool {
        value@.tag_id == self.tag_id@
    }

    fn check(&self, value: &TagUpvote) -> (passed: bool) {
        *value.tag_id.as_str() == *self.tag_id
    }
}

/// Upvotes of the approved tag `tag_id` by the user `user_id`.
pub struct UpvoteOf<'a> {
    pub tag_id: &'a str,
    pub user_id: &'a str,
}

impl<'a> Test<TagUpvote> for UpvoteOf<'a> {
    open spec fn passes(&self, value: TagUpvote) -> bool {
        value@.is_of(self.tag_id@, self.user_id@)
    }

    fn check(&self, value: &TagUpvote) -> (passed: bool) {
        *value.tag_id.as_str() == *self.tag_id && *value.user_id.as_str() == *self.user_id
    }
}

} // verus!
