//! What the requests about tags do to the store.

use vstd::prelude::*;
use crate::error::StoreError;
use crate::links::{OfImage, OfTag};
use crate::models::tag::{approved, pending};
use crate::models::{
    ApprovedTag, ApprovedTagView, ReviewTagRequest, SuggestTagRequest, TagSuggestion,
    TagSuggestionView, TagUpvote, TagUpvoteView, UpvoteTagRequest,
};
use crate::outside::{is_id_text, now_rfc3339};
use crate::services::DataService;
use crate::table::{
    kept, lemma_lists_len, lemma_lists_map_values, lists, passing, seen, targets, view_of, views,
};

verus! {

/// Records a new pending suggestion of the request's tag for the image
/// `image_id`, and hands the suggestion's identifier back. The identifier is
/// fresh and the time is the present one; the rest is as the request says.
pub fn suggest_tag(data: &mut DataService, image_id: String, req: &SuggestTagRequest) -> (id: String)
    ensures
        is_id_text(id@),
        final(data)@.tag_suggestions.contains_key(id@),
        final(data)@ == old(data)@.with_suggestion(
            TagSuggestionView {
                id: id@,
                image_id: image_id@,
                tag: req.tag@,
                suggested_by: req.suggested_by@,
                suggested_at: final(data)@.tag_suggestions[id@].suggested_at,
                status: pending(),
                reviewed_by: None,
                reviewed_at: None,
            },
        ),
{
    let suggestion = TagSuggestion::new(image_id, req.tag.clone(), req.suggested_by.clone());
    data.add_tag_suggestion(suggestion)
}

/// Writes the request's verdict into the suggestion under `tag_id`: the
/// status, who gave it and when are overwritten, whatever they were. If the
/// status is `approved`, and only then, a new approved tag without upvotes
/// is made of the suggestion's image and text, approved by the same user,
/// and its identifier is handed back. Without such a suggestion the request
/// fails and nothing changes.
pub fn review_tag(data: &mut DataService, tag_id: &str, req: &ReviewTagRequest) -> (made: Result<
    Option<String>,
    StoreError,
>)
    ensures
        match made {
            Err(e) => e == StoreError::NotFound && !old(data)@.tag_suggestions.contains_key(tag_id@)
                && final(data)@ == old(data)@,
            Ok(made) => {
                let before = old(data)@;
                let after = final(data)@;
                &&& before.tag_suggestions.contains_key(tag_id@)
                &&& after.tag_suggestions.contains_key(tag_id@)
                &&& after.tag_suggestions[tag_id@].reviewed_at is Some
                &&& {
                    let reviewed = before.reviewed(
                        tag_id@,
                        req.status@,
                        req.reviewed_by@,
                        after.tag_suggestions[tag_id@].reviewed_at->0,
                    );
                    match made {
                        Some(id) => req.status@ == approved() && is_id_text(id@)
                            && after.approved_tags.contains_key(id@) && after
                            == reviewed.with_approved_tag(
                            ApprovedTagView {
                                id: id@,
                                image_id: before.tag_suggestions[tag_id@].image_id,
                                tag: before.tag_suggestions[tag_id@].tag,
                                approved_by: req.reviewed_by@,
                                approved_at: after.approved_tags[id@].approved_at,
                                upvotes: 0,
                            },
                        ),
                        None => req.status@ != approved() && after == reviewed,
                    }
                }
            },
        },
{
    if !data.tag_suggestions.contains_key(tag_id) {
        return Err(StoreError::NotFound);
    }
    let reviewed_at = now_rfc3339();
    match data.record_review(tag_id, req.status.clone(), req.reviewed_by.clone(), reviewed_at) {
        Some((image_id, tag)) => {
            if *req.status.as_str() == *"approved" {
                let approved_tag = ApprovedTag::new(image_id, tag, req.reviewed_by.clone());
                Ok(Some(data.add_approved_tag(approved_tag)))
            } else {
                Ok(None)
            }
        },
        None => Err(StoreError::NotFound),
    }
}

/// Toggles the upvote of the request's user on the tag `tag_id`. If the
/// user has one, every such upvote is taken out, one upvote less is counted
/// on the tag, and nothing is handed back. If not, a new upvote is recorded,
/// one more is counted on the tag, and the upvote's identifier is handed
/// back. The count changes only where the store holds the tag.
pub fn upvote_tag(data: &mut DataService, tag_id: &str, req: &UpvoteTagRequest) -> (given: Option<String>)
    requires
        !old(data)@.has_upvote(tag_id@, req.user_id@) && old(data)@.approved_tags.contains_key(tag_id@)
            ==> old(data)@.approved_tags[tag_id@].upvotes < i32::MAX,
    ensures
        given is None <==> old(data)@.has_upvote(tag_id@, req.user_id@),
        given matches Some(id) ==> is_id_text(id@) && final(data)@.tag_upvotes.contains_key(id@),
        final(data)@ == old(data)@.toggled(
            tag_id@,
            req.user_id@,
            TagUpvoteView {
                id: given->0@,
                tag_id: tag_id@,
                user_id: req.user_id@,
                upvoted_at: final(data)@.tag_upvotes[given->0@].upvoted_at,
            },
        ),
{
    if data.has_upvote(tag_id, req.user_id.as_str()) {
        data.remove_upvote(tag_id, req.user_id.as_str());
        None
    } else {
        let upvote = TagUpvote::new(tag_id.to_owned(), req.user_id.clone());
        Some(data.add_upvote(upvote))
    }
}

/// Deletes the approved tag under `tag_id` with the upvotes that name it.
/// Without such a tag the deletion fails and nothing changes.
pub fn delete_approved_tag(data: &mut DataService, tag_id: &str) -> (done: Result<(), StoreError>)
    ensures
        final(data)@ == old(data)@.without_approved_tag(tag_id@),
        match done {
            Ok(_) => old(data)@.approved_tags.contains_key(tag_id@),
            Err(e) => e == StoreError::NotFound && !old(data)@.approved_tags.contains_key(tag_id@),
        },
{
    if data.delete_approved_tag(tag_id) {
        Ok(())
    } else {
        Err(StoreError::NotFound)
    }
}

/// Every suggestion, once.
pub fn get_all_tags(data: &DataService) -> (all: Vec<&TagSuggestion>)
    ensures
        lists(seen(all@), data@.tag_suggestions),
        all@.len() == data@.tag_suggestions.len(),
{
    let all = data.tag_suggestions.values();
    proof {
        lemma_lists_map_values(targets(all@), data.tag_suggestions@, view_of::<TagSuggestion>());
        lemma_lists_len(seen(all@), data@.tag_suggestions);
    }
    all
}

/// Every approved tag, once.
pub fn get_approved_tags(data: &DataService) -> (all: Vec<&ApprovedTag>)
    ensures
        lists(seen(all@), data@.approved_tags),
        all@.len() == data@.approved_tags.len(),
{
    let all = data.approved_tags.values();
    proof {
        lemma_lists_map_values(targets(all@), data.approved_tags@, view_of::<ApprovedTag>());
        lemma_lists_len(seen(all@), data@.approved_tags);
    }
    all
}

/// The suggestions that name the image `image_id`, each once.
pub fn get_image_tags<'a>(data: &'a DataService, image_id: &str) -> (found: Vec<&'a TagSuggestion>)
    ensures
        lists(
            seen(found@),
            kept(data@.tag_suggestions, |s: TagSuggestionView| s.image_id == image_id@),
        ),
        found@.len() == kept(
            data@.tag_suggestions,
            |s: TagSuggestionView| s.image_id == image_id@,
        ).len(),
{
    let test = OfImage { image_id };
    let found = data.tag_suggestions.select(&test);
    proof {
        let chosen = kept(data.tag_suggestions@, passing(test));
        lemma_lists_map_values(targets(found@), chosen, view_of::<TagSuggestion>());
        assert(views(chosen) =~= kept(
            data@.tag_suggestions,
            |s: TagSuggestionView| s.image_id == image_id@,
        ));
        lemma_lists_len(seen(found@), views(chosen));
    }
    found
}

/// The upvotes that name the approved tag `tag_id`, each once.
pub fn get_tag_upvotes<'a>(data: &'a DataService, tag_id: &str) -> (found: Vec<&'a TagUpvote>)
    ensures
        lists(seen(found@), kept(data@.tag_upvotes, |u: TagUpvoteView| u.tag_id == tag_id@)),
        found@.len() == kept(data@.tag_upvotes, |u: TagUpvoteView| u.tag_id == tag_id@).len(),
{
    let test = OfTag { tag_id };
    let found = data.tag_upvotes.select(&test);
    proof {
        let chosen = kept(data.tag_upvotes@, passing(test));
        lemma_lists_map_values(targets(found@), chosen, view_of::<TagUpvote>());
        assert(views(chosen) =~= kept(data@.tag_upvotes, |u: TagUpvoteView| u.tag_id == tag_id@));
        lemma_lists_len(seen(found@), views(chosen));
    }
    found
}

} // verus!
