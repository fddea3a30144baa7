//! Tag suggestions, approved tags and upvotes, and the requests about them.

use vstd::prelude::*;
use crate::outside::{is_id_text, new_id, now_rfc3339};

verus! {

/// The characters of an optional text.
pub open spec fn opt_text(text: Option<String>) -> Option<Seq<char>> {
    match text {
        Some(t) => Some(t@),
        None => None,
    }
}

/// A copy of an optional text.
pub fn copy_opt_text(text: &Option<String>) -> (copy: Option<String>)
    ensures
        opt_text(copy) == opt_text(*text),
{
    match text {
        Some(t) => Some(t.clone()),
        None => None,
    }
}

/// The status of a suggestion that nobody has reviewed.
pub open spec fn pending() -> Seq<char> {
    "pending"@
}

/// The status that makes an approved tag of a suggestion.
pub open spec fn approved() -> Seq<char> {
    "approved"@
}

/// A tag that a user proposes for an image.
#[derive(Debug)]
pub struct TagSuggestion {
    pub id: String,
    pub image_id: String,
    pub tag: String,
    pub suggested_by: String,
    pub suggested_at: String,
    pub status: String,
    pub reviewed_by: Option<String>,
    pub reviewed_at: Option<String>,
}

/// What a [`TagSuggestion`] holds, as plain text.
pub struct TagSuggestionView {
    pub id: Seq<char>,
    pub image_id: Seq<char>,
    pub tag: Seq<char>,
    pub suggested_by: Seq<char>,
    pub suggested_at: Seq<char>,
    pub status: Seq<char>,
    pub reviewed_by: Option<Seq<char>>,
    pub reviewed_at: Option<Seq<char>>,
}

impl View for TagSuggestion {
    type V = TagSuggestionView;

    open spec fn view(&self) -> TagSuggestionView {
        TagSuggestionView {
            id: self.id@,
            image_id: self.image_id@,
            tag: self.tag@,
            suggested_by: self.suggested_by@,
            suggested_at: self.suggested_at@,
            status: self.status@,
            reviewed_by: opt_text(self.reviewed_by),
            reviewed_at: opt_text(self.reviewed_at),
        }
    }
}

impl TagSuggestionView {
    /// The suggestion with a verdict written into it: the status, who gave
    /// it and when are overwritten, whatever they were; the rest stays.
    pub open spec fn reviewed(self, status: Seq<char>, reviewed_by: Seq<char>, reviewed_at: Seq<char>)
        -> TagSuggestionView {
        TagSuggestionView { status, reviewed_by: Some(reviewed_by), reviewed_at: Some(reviewed_at), ..self }
    }
}

impl Clone for TagSuggestion {
    fn clone(&self) -> (copy: Self)
        ensures
            copy@ == self@,
    {
        TagSuggestion {
            id: self.id.clone(),
            image_id: self.image_id.clone(),
            tag: self.tag.clone(),
            suggested_by: self.suggested_by.clone(),
            suggested_at: self.suggested_at.clone(),
            status: self.status.clone(),
            reviewed_by: copy_opt_text(&self.reviewed_by),
            reviewed_at: copy_opt_text(&self.reviewed_at),
        }
    }
}

impl TagSuggestion {
    /// A pending suggestion under the given identifier and time.
    pub fn with_identity(
        id: String,
        suggested_at: String,
        image_id: String,
        tag: String,
        suggested_by: String,
    ) -> (suggestion: Self)
        ensures
            suggestion@ == (TagSuggestionView {
                id: id@,
                image_id: image_id@,
                tag: tag@,
                suggested_by: suggested_by@,
                suggested_at: suggested_at@,
                status: pending(),
                reviewed_by: None,
                reviewed_at: None,
            }),
    {
        TagSuggestion {
            id,
            image_id,
            tag,
            suggested_by,
            suggested_at,
            status: "pending".to_owned(),
            reviewed_by: None,
            reviewed_at: None,
        }
    }

    /// A new pending suggestion with a fresh identifier, made now.
    pub fn new(image_id: String, tag: String, suggested_by: String) -> (suggestion: Self)
        ensures
            suggestion@ == (TagSuggestionView {
                id: suggestion@.id,
                image_id: image_id@,
                tag: tag@,
                suggested_by: suggested_by@,
                suggested_at: suggestion@.suggested_at,
                status: pending(),
                reviewed_by: None,
                reviewed_at: None,
            }),
            is_id_text(suggestion@.id),
    {
        TagSuggestion::with_identity(new_id(), now_rfc3339(), image_id, tag, suggested_by)
    }
}

/// A tag that was approved for an image.
#[derive(Debug)]
pub struct ApprovedTag {
    pub id: String,
    pub image_id: String,
    pub tag: String,
    pub approved_by: String,
    pub approved_at: String,
    pub upvotes: i32,
}

/// What an [`ApprovedTag`] holds, as plain text and a number.
pub struct ApprovedTagView {
    pub id: Seq<char>,
    pub image_id: Seq<char>,
    pub tag: Seq<char>,
    pub approved_by: Seq<char>,
    pub approved_at: Seq<char>,
    pub upvotes: int,
}

impl View for ApprovedTag {
    type V = ApprovedTagView;

    open spec fn view(&self) -> ApprovedTagView {
        ApprovedTagView {
            id: self.id@,
            image_id: self.image_id@,
            tag: self.tag@,
            approved_by: self.approved_by@,
            approved_at: self.approved_at@,
            upvotes: self.upvotes as int,
        }
    }
}

impl ApprovedTagView {
    /// The count of upvotes is not negative.
    pub open spec fn valid(self) -> bool {
        self.upvotes >= 0
    }

    /// The tag with one upvote more.
    pub open spec fn upvoted(self) -> ApprovedTagView {
        ApprovedTagView { upvotes: self.upvotes + 1, ..self }
    }

    /// The tag with one upvote less, but never fewer than none.
    pub open spec fn downvoted(self) -> ApprovedTagView {
        ApprovedTagView {
            upvotes: if self.upvotes > 0 {
                self.upvotes - 1
            } else {
                0
            },
            ..self
        }
    }
}

impl Clone for ApprovedTag {
    fn clone(&self) -> (copy: Self)
        ensures
            copy@ == self@,
    {
        ApprovedTag {
            id: self.id.clone(),
            image_id: self.image_id.clone(),
            tag: self.tag.clone(),
            approved_by: self.approved_by.clone(),
            approved_at: self.approved_at.clone(),
            upvotes: self.upvotes,
        }
    }
}

impl ApprovedTag {
    /// An approved tag without upvotes, under the given identifier and time.
    pub fn with_identity(
        id: String,
        approved_at: String,
        image_id: String,
        tag: String,
        approved_by: String,
    ) -> (approved: Self)
        ensures
            approved@ == (ApprovedTagView {
                id: id@,
                image_id: image_id@,
                tag: tag@,
                approved_by: approved_by@,
                approved_at: approved_at@,
                upvotes: 0,
            }),
    {
        ApprovedTag { id, image_id, tag, approved_by, approved_at, upvotes: 0 }
    }

    /// A new approved tag with a fresh identifier, approved now, without
    /// upvotes.
    pub fn new(image_id: String, tag: String, approved_by: String) -> (approved: Self)
        ensures
            approved@ == (ApprovedTagView {
                id: approved@.id,
                image_id: image_id@,
                tag: tag@,
                approved_by: approved_by@,
                approved_at: approved@.approved_at,
                upvotes: 0,
            }),
            is_id_text(approved@.id),
    {
        ApprovedTag::with_identity(new_id(), now_rfc3339(), image_id, tag, approved_by)
    }
}

/// One user's upvote of one approved tag.
#[derive(Debug)]
pub struct TagUpvote {
    pub id: String,
    pub tag_id: String,
    pub user_id: String,
    pub upvoted_at: String,
}

/// What a [`TagUpvote`] holds, as plain text.
pub struct TagUpvoteView {
    pub id: Seq<char>,
    pub tag_id: Seq<char>,
    pub user_id: Seq<char>,
    pub upvoted_at: Seq<char>,
}

impl View for TagUpvote {
    type V = TagUpvoteView;

    open spec fn view(&self) -> TagUpvoteView {
        TagUpvoteView {
            id: self.id@,
            tag_id: self.tag_id@,
            user_id: self.user_id@,
            upvoted_at: self.upvoted_at@,
        }
    }
}

impl TagUpvoteView {
    /// Whether this is an upvote of `tag_id` by `user_id`.
    pub open spec fn is_of(self, tag_id: Seq<char>, user_id: Seq<char>) -> bool {
        self.tag_id == tag_id && self.user_id == user_id
    }
}

impl Clone for TagUpvote {
    fn clone(&self) -> (copy: Self)
        ensures
            copy@ == self@,
    {
        TagUpvote {
            id: self.id.clone(),
            tag_id: self.tag_id.clone(),
            user_id: self.user_id.clone(),
            upvoted_at: self.upvoted_at.clone(),
        }
    }
}

impl TagUpvote {
    /// An upvote under the given identifier and time.
    pub fn with_identity(id: String, upvoted_at: String, tag_id: String, user_id: String) -> (upvote:
        Self)
        ensures
            upvote@ == (TagUpvoteView {
                id: id@,
                tag_id: tag_id@,
                user_id: user_id@,
                upvoted_at: upvoted_at@,
            }),
    {
        TagUpvote { id, tag_id, user_id, upvoted_at }
    }

    /// A new upvote with a fresh identifier, given now.
    pub fn new(tag_id: String, user_id: String) -> (upvote: Self)
        ensures
            upvote@ == (TagUpvoteView {
                id: upvote@.id,
                tag_id: tag_id@,
                user_id: user_id@,
                upvoted_at: upvote@.upvoted_at,
            }),
            is_id_text(upvote@.id),
    {
        TagUpvote::with_identity(new_id(), now_rfc3339(), tag_id, user_id)
    }
}

/// What a request to suggest a tag carries.
#[derive(Debug)]
pub struct SuggestTagRequest {
    pub image_id: String,
    pub tag: String,
    pub suggested_by: String,
}

/// What a request to review a suggestion carries.
#[derive(Debug)]
pub struct ReviewTagRequest {
    pub suggestion_id: String,
    pub status: String,
    pub reviewed_by: String,
}

/// What a request to upvote a tag carries.
#[derive(Debug)]
pub struct UpvoteTagRequest {
    pub tag_id: String,
    pub user_id: String,
}

} // verus!
