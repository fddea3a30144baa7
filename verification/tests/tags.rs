use annotation_store::error::StoreError;
use annotation_store::handlers::{
    delete_approved_tag, get_all_tags, get_approved_tags, get_image_tags, get_tag_upvotes,
    review_tag, suggest_tag, upvote_tag,
};
use annotation_store::models::{
    ApprovedTag, ReviewTagRequest, SuggestTagRequest, TagSuggestion, TagUpvote, UpvoteTagRequest,
};
use annotation_store::services::DataService;

fn suggestion_request(tag: &str, by: &str) -> SuggestTagRequest {
    SuggestTagRequest { image_id: String::new(), tag: tag.to_string(), suggested_by: by.to_string() }
}

fn verdict(status: &str, by: &str) -> ReviewTagRequest {
    ReviewTagRequest {
        suggestion_id: String::new(),
        status: status.to_string(),
        reviewed_by: by.to_string(),
    }
}

fn vote(user: &str) -> UpvoteTagRequest {
    UpvoteTagRequest { tag_id: String::new(), user_id: user.to_string() }
}

fn approved_tag(id: &str, upvotes: i32) -> ApprovedTag {
    let mut tag = ApprovedTag::with_identity(
        id.to_string(),
        "2024-01-03T00:00:00+00:00".to_string(),
        "i1".to_string(),
        "cute".to_string(),
        "alice".to_string(),
    );
    tag.upvotes = upvotes;
    tag
}

fn upvotes_of(data: &DataService, tag_id: &str) -> i32 {
    data.approved_tags.get(tag_id).expect("the tag is stored").upvotes
}

#[test]
fn new_suggestion_is_pending() {
    let s = TagSuggestion::new("i1".to_string(), "cute".to_string(), "bob".to_string());
    assert_eq!(s.image_id, "i1");
    assert_eq!(s.tag, "cute");
    assert_eq!(s.suggested_by, "bob");
    assert_eq!(s.status, "pending");
    assert!(s.reviewed_by.is_none());
    assert!(s.reviewed_at.is_none());
    assert_eq!(s.id.len(), 36);
    assert!(!s.suggested_at.is_empty());
}

#[test]
fn new_approved_tag_has_no_upvotes() {
    let t = ApprovedTag::new("i1".to_string(), "cute".to_string(), "alice".to_string());
    assert_eq!(t.image_id, "i1");
    assert_eq!(t.tag, "cute");
    assert_eq!(t.approved_by, "alice");
    assert_eq!(t.upvotes, 0);
    assert_eq!(t.id.len(), 36);
}

#[test]
fn new_upvote_names_tag_and_user() {
    let u = TagUpvote::new("t1".to_string(), "bob".to_string());
    assert_eq!(u.tag_id, "t1");
    assert_eq!(u.user_id, "bob");
    assert_eq!(u.id.len(), 36);
    assert!(!u.upvoted_at.is_empty());
    let copy = u.clone();
    assert_eq!(copy.id, u.id);
    assert_eq!(copy.upvoted_at, u.upvoted_at);
}

#[test]
fn suggestion_clone_keeps_the_verdict() {
    let mut s = TagSuggestion::with_identity(
        "s1".to_string(),
        "then".to_string(),
        "i1".to_string(),
        "cute".to_string(),
        "bob".to_string(),
    );
    s.reviewed_by = Some("alice".to_string());
    let copy = s.clone();
    assert_eq!(copy.id, "s1");
    assert_eq!(copy.suggested_at, "then");
    assert_eq!(copy.status, "pending");
    assert_eq!(copy.reviewed_by, Some("alice".to_string()));
    assert_eq!(copy.reviewed_at, None);
}

#[test]
fn suggest_tag_records_a_pending_suggestion() {
    let mut data = DataService::new();
    let id = suggest_tag(&mut data, "i1".to_string(), &suggestion_request("cute", "bob"));
    let stored = data.tag_suggestions.get(&id).expect("stored under its identifier");
    assert_eq!(stored.id, id);
    assert_eq!(stored.image_id, "i1");
    assert_eq!(stored.tag, "cute");
    assert_eq!(stored.suggested_by, "bob");
    assert_eq!(stored.status, "pending");
    assert!(stored.reviewed_by.is_none());
    assert!(stored.reviewed_at.is_none());
    assert_eq!(data.tag_suggestions.len(), 1);
    assert_eq!(data.approved_tags.len(), 0);
}

#[test]
fn review_as_approved_makes_one_approved_tag() {
    let mut data = DataService::new();
    let id = suggest_tag(&mut data, "i1".to_string(), &suggestion_request("cute", "bob"));
    let made = review_tag(&mut data, &id, &verdict("approved", "alice")).unwrap();
    let tag_id = made.expect("approval makes a tag");
    let stored = data.tag_suggestions.get(&id).unwrap();
    assert_eq!(stored.status, "approved");
    assert_eq!(stored.reviewed_by, Some("alice".to_string()));
    assert!(stored.reviewed_at.is_some());
    assert_eq!(stored.tag, "cute");
    assert_eq!(stored.suggested_by, "bob");
    assert_eq!(data.approved_tags.len(), 1);
    let tag = data.approved_tags.get(&tag_id).unwrap();
    assert_eq!(tag.id, tag_id);
    assert_ne!(tag.id, id);
    assert_eq!(tag.image_id, "i1");
    assert_eq!(tag.tag, "cute");
    assert_eq!(tag.approved_by, "alice");
    assert_eq!(tag.upvotes, 0);
    assert_eq!(data.tag_suggestions.len(), 1);
}

#[test]
fn review_as_rejected_makes_no_approved_tag() {
    let mut data = DataService::new();
    let id = suggest_tag(&mut data, "i1".to_string(), &suggestion_request("cute", "bob"));
    assert_eq!(review_tag(&mut data, &id, &verdict("rejected", "alice")), Ok(None));
    let stored = data.tag_suggestions.get(&id).unwrap();
    assert_eq!(stored.status, "rejected");
    assert_eq!(stored.reviewed_by, Some("alice".to_string()));
    assert_eq!(data.approved_tags.len(), 0);
}

#[test]
fn review_takes_any_status_verbatim() {
    let mut data = DataService::new();
    let id = suggest_tag(&mut data, "i1".to_string(), &suggestion_request("cute", "bob"));
    assert_eq!(review_tag(&mut data, &id, &verdict("Approved", "alice")), Ok(None));
    assert_eq!(data.tag_suggestions.get(&id).unwrap().status, "Approved");
    assert_eq!(review_tag(&mut data, &id, &verdict("", "alice")), Ok(None));
    assert_eq!(data.tag_suggestions.get(&id).unwrap().status, "");
    assert_eq!(data.approved_tags.len(), 0);
}

#[test]
fn review_again_overwrites_and_approves_again() {
    let mut data = DataService::new();
    let id = suggest_tag(&mut data, "i1".to_string(), &suggestion_request("cute", "bob"));
    let first = review_tag(&mut data, &id, &verdict("approved", "alice")).unwrap().unwrap();
    let second = review_tag(&mut data, &id, &verdict("approved", "carol")).unwrap().unwrap();
    assert_ne!(first, second);
    assert_eq!(data.approved_tags.len(), 2);
    assert_eq!(data.tag_suggestions.get(&id).unwrap().reviewed_by, Some("carol".to_string()));
    assert_eq!(review_tag(&mut data, &id, &verdict("rejected", "dave")), Ok(None));
    assert_eq!(data.tag_suggestions.get(&id).unwrap().status, "rejected");
    assert_eq!(data.approved_tags.len(), 2);
}

#[test]
fn review_fails_without_the_suggestion() {
    let mut data = DataService::new();
    suggest_tag(&mut data, "i1".to_string(), &suggestion_request("cute", "bob"));
    assert_eq!(
        review_tag(&mut data, "missing", &verdict("approved", "alice")),
        Err(StoreError::NotFound)
    );
    assert_eq!(data.approved_tags.len(), 0);
}

#[test]
fn record_review_hands_back_image_and_text() {
    let mut data = DataService::new();
    let s = TagSuggestion::with_identity(
        "s1".to_string(),
        "then".to_string(),
        "i1".to_string(),
        "cute".to_string(),
        "bob".to_string(),
    );
    assert_eq!(data.add_tag_suggestion(s), "s1");
    let named = data.record_review(
        "s1",
        "approved".to_string(),
        "alice".to_string(),
        "now".to_string(),
    );
    assert_eq!(named, Some(("i1".to_string(), "cute".to_string())));
    let stored = data.tag_suggestions.get("s1").unwrap();
    assert_eq!(stored.status, "approved");
    assert_eq!(stored.reviewed_by, Some("alice".to_string()));
    assert_eq!(stored.reviewed_at, Some("now".to_string()));
    assert_eq!(stored.suggested_at, "then");
    assert_eq!(
        data.record_review("s2", "approved".to_string(), "alice".to_string(), "now".to_string()),
        None
    );
}

#[test]
fn upvote_toggle_counts_up_then_down() {
    let mut data = DataService::new();
    data.add_approved_tag(approved_tag("t1", 0));
    let given = upvote_tag(&mut data, "t1", &vote("bob"));
    let upvote_id = given.expect("the first toggle gives an upvote");
    assert_eq!(upvotes_of(&data, "t1"), 1);
    assert!(data.has_upvote("t1", "bob"));
    let stored = data.tag_upvotes.get(&upvote_id).unwrap();
    assert_eq!(stored.tag_id, "t1");
    assert_eq!(stored.user_id, "bob");
    assert_eq!(upvote_tag(&mut data, "t1", &vote("bob")), None);
    assert_eq!(upvotes_of(&data, "t1"), 0);
    assert!(!data.has_upvote("t1", "bob"));
    assert_eq!(data.tag_upvotes.len(), 0);
}

#[test]
fn upvote_toggle_twice_restores_a_larger_count() {
    let mut data = DataService::new();
    data.add_approved_tag(approved_tag("t1", 41));
    upvote_tag(&mut data, "t1", &vote("bob"));
    assert_eq!(upvotes_of(&data, "t1"), 42);
    upvote_tag(&mut data, "t1", &vote("bob"));
    assert_eq!(upvotes_of(&data, "t1"), 41);
    assert!(get_tag_upvotes(&data, "t1").is_empty());
}

#[test]
fn upvotes_of_two_users_are_kept_apart() {
    let mut data = DataService::new();
    data.add_approved_tag(approved_tag("t1", 0));
    data.add_approved_tag(approved_tag("t2", 0));
    upvote_tag(&mut data, "t1", &vote("bob"));
    upvote_tag(&mut data, "t1", &vote("carol"));
    upvote_tag(&mut data, "t2", &vote("bob"));
    assert_eq!(upvotes_of(&data, "t1"), 2);
    assert_eq!(upvotes_of(&data, "t2"), 1);
    assert_eq!(get_tag_upvotes(&data, "t1").len(), 2);
    upvote_tag(&mut data, "t1", &vote("bob"));
    assert_eq!(upvotes_of(&data, "t1"), 1);
    assert_eq!(upvotes_of(&data, "t2"), 1);
    assert!(!data.has_upvote("t1", "bob"));
    assert!(data.has_upvote("t1", "carol"));
    assert!(data.has_upvote("t2", "bob"));
}

#[test]
fn withdrawing_an_upvote_does_not_count_below_zero() {
    let mut data = DataService::new();
    data.add_approved_tag(approved_tag("t1", 0));
    data.tag_upvotes.insert(
        "u1".to_string(),
        TagUpvote::with_identity(
            "u1".to_string(),
            "then".to_string(),
            "t1".to_string(),
            "bob".to_string(),
        ),
    );
    assert_eq!(upvote_tag(&mut data, "t1", &vote("bob")), None);
    assert_eq!(upvotes_of(&data, "t1"), 0);
    assert_eq!(data.tag_upvotes.len(), 0);
}

#[test]
fn withdrawing_takes_every_upvote_of_the_pair_and_counts_one() {
    let mut data = DataService::new();
    data.add_approved_tag(approved_tag("t1", 5));
    for id in ["u1", "u2"] {
        data.tag_upvotes.insert(
            id.to_string(),
            TagUpvote::with_identity(
                id.to_string(),
                "then".to_string(),
                "t1".to_string(),
                "bob".to_string(),
            ),
        );
    }
    data.remove_upvote("t1", "bob");
    assert_eq!(data.tag_upvotes.len(), 0);
    assert_eq!(upvotes_of(&data, "t1"), 4);
}

#[test]
fn upvote_on_a_tag_that_is_not_stored_keeps_the_row_only() {
    let mut data = DataService::new();
    let given = upvote_tag(&mut data, "ghost", &vote("bob"));
    assert!(given.is_some());
    assert_eq!(data.tag_upvotes.len(), 1);
    assert_eq!(data.approved_tags.len(), 0);
    assert_eq!(upvote_tag(&mut data, "ghost", &vote("bob")), None);
    assert_eq!(data.tag_upvotes.len(), 0);
}

#[test]
fn add_upvote_counts_on_the_named_tag() {
    let mut data = DataService::new();
    data.add_approved_tag(approved_tag("t1", 7));
    let upvote = TagUpvote::with_identity(
        "u1".to_string(),
        "then".to_string(),
        "t1".to_string(),
        "bob".to_string(),
    );
    assert_eq!(data.add_upvote(upvote), "u1");
    assert_eq!(upvotes_of(&data, "t1"), 8);
    assert_eq!(data.tag_upvotes.get("u1").unwrap().upvoted_at, "then");
}

#[test]
fn delete_approved_tag_takes_its_upvotes_along() {
    let mut data = DataService::new();
    data.add_approved_tag(approved_tag("t1", 0));
    data.add_approved_tag(approved_tag("t2", 0));
    upvote_tag(&mut data, "t1", &vote("bob"));
    upvote_tag(&mut data, "t1", &vote("carol"));
    upvote_tag(&mut data, "t2", &vote("bob"));
    assert_eq!(delete_approved_tag(&mut data, "t1"), Ok(()));
    assert!(data.approved_tags.get("t1").is_none());
    assert!(data.approved_tags.get("t2").is_some());
    assert_eq!(data.tag_upvotes.len(), 1);
    assert!(get_tag_upvotes(&data, "t1").is_empty());
    assert_eq!(get_tag_upvotes(&data, "t2").len(), 1);
    assert_eq!(delete_approved_tag(&mut data, "t1"), Err(StoreError::NotFound));
    assert_eq!(data.tag_upvotes.len(), 1);
}

#[test]
fn delete_approved_tag_without_the_tag_leaves_dangling_upvotes() {
    let mut data = DataService::new();
    upvote_tag(&mut data, "ghost", &vote("bob"));
    assert!(!data.delete_approved_tag("ghost"));
    assert_eq!(data.tag_upvotes.len(), 1);
}

#[test]
fn listings_filter_by_image_and_tag() {
    let mut data = DataService::new();
    assert!(get_all_tags(&data).is_empty());
    assert!(get_approved_tags(&data).is_empty());
    let s1 = suggest_tag(&mut data, "i1".to_string(), &suggestion_request("cute", "bob"));
    let s2 = suggest_tag(&mut data, "i2".to_string(), &suggestion_request("dog", "bob"));
    let s3 = suggest_tag(&mut data, "i1".to_string(), &suggestion_request("cat", "carol"));
    review_tag(&mut data, &s1, &verdict("approved", "alice")).unwrap();
    assert_eq!(get_all_tags(&data).len(), 3);
    assert_eq!(get_approved_tags(&data).len(), 1);
    assert_eq!(get_approved_tags(&data)[0].tag, "cute");
    let mut of_first: Vec<String> = get_image_tags(&data, "i1").iter().map(|s| s.id.clone()).collect();
    of_first.sort();
    let mut expected = vec![s1.clone(), s3.clone()];
    expected.sort();
    assert_eq!(of_first, expected);
    let of_second = get_image_tags(&data, "i2");
    assert_eq!(of_second.len(), 1);
    assert_eq!(of_second[0].id, s2);
    assert!(get_image_tags(&data, "i3").is_empty());
}

#[test]
fn scenario_suggest_approve_upvote_delete() {
    let mut data = DataService::new();
    let sugg_id = suggest_tag(&mut data, "img-1".to_string(), &suggestion_request("cute", "bob"));
    assert_eq!(data.tag_suggestions.get(&sugg_id).unwrap().status, "pending");
    let tag_id = review_tag(&mut data, &sugg_id, &verdict("approved", "alice"))
        .unwrap()
        .expect("approval makes a tag");
    assert_eq!(data.tag_suggestions.get(&sugg_id).unwrap().status, "approved");
    assert_eq!(get_approved_tags(&data).len(), 1);
    assert_eq!(upvotes_of(&data, &tag_id), 0);
    assert!(upvote_tag(&mut data, &tag_id, &vote("bob")).is_some());
    assert_eq!(upvotes_of(&data, &tag_id), 1);
    assert_eq!(delete_approved_tag(&mut data, &tag_id), Ok(()));
    assert!(data.approved_tags.get(&tag_id).is_none());
    assert!(get_tag_upvotes(&data, &tag_id).is_empty());
    assert_eq!(data.tag_upvotes.len(), 0);
}
