use annotation_store::error::StoreError;
use annotation_store::handlers::{review_tag, suggest_tag, upvote_tag};
use annotation_store::models::{
    Group, Image, ReviewTagRequest, SuggestTagRequest, UpvoteTagRequest,
};
use annotation_store::services::{AppData, DataService, SnapshotRead};

fn filled() -> (DataService, String, String, String) {
    let mut data = DataService::new();
    let mut group = Group::with_identity(
        "g1".to_string(),
        "then".to_string(),
        "Photos".to_string(),
        "Pictures".to_string(),
        "alice".to_string(),
    );
    group.add_member("bob".to_string());
    data.create_group(group);
    data.create_image(Image::with_identity(
        "i1".to_string(),
        "then".to_string(),
        "1_cat.png".to_string(),
        "cat.png".to_string(),
        "g1".to_string(),
        "bob".to_string(),
    ));
    let suggestion = suggest_tag(
        &mut data,
        "i1".to_string(),
        &SuggestTagRequest {
            image_id: String::new(),
            tag: "cute".to_string(),
            suggested_by: "bob".to_string(),
        },
    );
    let tag = review_tag(
        &mut data,
        &suggestion,
        &ReviewTagRequest {
            suggestion_id: String::new(),
            status: "approved".to_string(),
            reviewed_by: "alice".to_string(),
        },
    )
    .unwrap()
    .unwrap();
    let upvote = upvote_tag(
        &mut data,
        &tag,
        &UpvoteTagRequest { tag_id: String::new(), user_id: "bob".to_string() },
    )
    .unwrap();
    (data, suggestion, tag, upvote)
}

fn assert_same(left: &DataService, right: &DataService) {
    assert_eq!(left.groups.len(), right.groups.len());
    for key in left.groups.key_list() {
        let (a, b) = (left.groups.get(&key).unwrap(), right.groups.get(&key).unwrap());
        assert_eq!(a.id, b.id);
        assert_eq!(a.name, b.name);
        assert_eq!(a.description, b.description);
        assert_eq!(a.created_at, b.created_at);
        assert_eq!(a.created_by, b.created_by);
        assert_eq!(a.members, b.members);
    }
    assert_eq!(left.images.len(), right.images.len());
    for key in left.images.key_list() {
        let (a, b) = (left.images.get(&key).unwrap(), right.images.get(&key).unwrap());
        assert_eq!(a.id, b.id);
        assert_eq!(a.filename, b.filename);
        assert_eq!(a.original_name, b.original_name);
        assert_eq!(a.group_id, b.group_id);
        assert_eq!(a.uploaded_at, b.uploaded_at);
        assert_eq!(a.uploaded_by, b.uploaded_by);
    }
    assert_eq!(left.tag_suggestions.len(), right.tag_suggestions.len());
    for key in left.tag_suggestions.key_list() {
        let a = left.tag_suggestions.get(&key).unwrap();
        let b = right.tag_suggestions.get(&key).unwrap();
        assert_eq!(a.id, b.id);
        assert_eq!(a.image_id, b.image_id);
        assert_eq!(a.tag, b.tag);
        assert_eq!(a.suggested_by, b.suggested_by);
        assert_eq!(a.suggested_at, b.suggested_at);
        assert_eq!(a.status, b.status);
        assert_eq!(a.reviewed_by, b.reviewed_by);
        assert_eq!(a.reviewed_at, b.reviewed_at);
    }
    assert_eq!(left.approved_tags.len(), right.approved_tags.len());
    for key in left.approved_tags.key_list() {
        let a = left.approved_tags.get(&key).unwrap();
        let b = right.approved_tags.get(&key).unwrap();
        assert_eq!(a.id, b.id);
        assert_eq!(a.image_id, b.image_id);
        assert_eq!(a.tag, b.tag);
        assert_eq!(a.approved_by, b.approved_by);
        assert_eq!(a.approved_at, b.approved_at);
        assert_eq!(a.upvotes, b.upvotes);
    }
    assert_eq!(left.tag_upvotes.len(), right.tag_upvotes.len());
    for key in left.tag_upvotes.key_list() {
        let a = left.tag_upvotes.get(&key).unwrap();
        let b = right.tag_upvotes.get(&key).unwrap();
        assert_eq!(a.id, b.id);
        assert_eq!(a.tag_id, b.tag_id);
        assert_eq!(a.user_id, b.user_id);
        assert_eq!(a.upvoted_at, b.upvoted_at);
    }
}

#[test]
fn new_store_is_empty() {
    let data = DataService::new();
    assert_eq!(data.groups.len(), 0);
    assert_eq!(data.images.len(), 0);
    assert_eq!(data.tag_suggestions.len(), 0);
    assert_eq!(data.approved_tags.len(), 0);
    assert_eq!(data.tag_upvotes.len(), 0);
}

#[test]
fn default_snapshot_is_empty() {
    let data = AppData::default();
    assert!(data.groups.is_empty());
    assert!(data.images.is_empty());
    assert!(data.tag_suggestions.is_empty());
    assert!(data.approved_tags.is_empty());
    assert!(data.tag_upvotes.is_empty());
}

#[test]
fn snapshot_then_load_on_a_fresh_store_brings_the_state_back() {
    let (data, suggestion, tag, upvote) = filled();
    let mut fresh = DataService::new();
    assert_eq!(fresh.load_snapshot(SnapshotRead::Parsed(data.snapshot())), Ok(()));
    assert_same(&data, &fresh);
    assert_eq!(fresh.groups.len(), 1);
    assert_eq!(fresh.images.len(), 1);
    assert_eq!(fresh.tag_suggestions.get(&suggestion).unwrap().status, "approved");
    assert_eq!(fresh.approved_tags.get(&tag).unwrap().upvotes, 1);
    assert_eq!(fresh.tag_upvotes.get(&upvote).unwrap().user_id, "bob");
}

#[test]
fn snapshot_is_a_copy() {
    let (mut data, _, tag, _) = filled();
    let snapshot = data.snapshot();
    data.delete_group("g1");
    data.delete_approved_tag(&tag);
    assert_eq!(snapshot.groups.len(), 1);
    assert_eq!(snapshot.images.len(), 1);
    assert_eq!(snapshot.approved_tags.len(), 1);
    assert_eq!(snapshot.tag_upvotes.len(), 1);
}

#[test]
fn load_replaces_what_the_store_held() {
    let (data, _, _, _) = filled();
    let mut other = DataService::new();
    other.create_group(Group::with_identity(
        "g9".to_string(),
        "then".to_string(),
        "Old".to_string(),
        String::new(),
        "zed".to_string(),
    ));
    assert_eq!(other.load_snapshot(SnapshotRead::Parsed(data.snapshot())), Ok(()));
    assert!(other.get_group("g9").is_none());
    assert_same(&data, &other);
}

#[test]
fn load_without_a_snapshot_leaves_the_store_as_it_is() {
    let (mut data, _, _, _) = filled();
    let before = data.snapshot();
    assert_eq!(data.load_snapshot(SnapshotRead::Missing), Ok(()));
    let mut expected = DataService::new();
    expected.load_snapshot(SnapshotRead::Parsed(before)).unwrap();
    assert_same(&expected, &data);
}

#[test]
fn load_of_a_malformed_snapshot_fails_and_changes_nothing() {
    let (mut data, _, _, _) = filled();
    let before = data.snapshot();
    assert_eq!(data.load_snapshot(SnapshotRead::Malformed), Err(StoreError::PersistenceFailure));
    let mut expected = DataService::new();
    expected.load_snapshot(SnapshotRead::Parsed(before)).unwrap();
    assert_same(&expected, &data);
}

#[test]
fn export_lends_the_collections_out() {
    let (data, suggestion, tag, upvote) = filled();
    let export = data.export_annotations();
    assert_eq!(export.groups.len(), 1);
    assert_eq!(export.groups.get("g1").unwrap().members.len(), 2);
    assert_eq!(export.images.get("i1").unwrap().original_name, "cat.png");
    assert_eq!(export.tag_suggestions.get(&suggestion).unwrap().tag, "cute");
    assert_eq!(export.approved_tags.get(&tag).unwrap().upvotes, 1);
    assert_eq!(export.tag_upvotes.get(&upvote).unwrap().tag_id, tag);
}

#[test]
fn errors_have_words() {
    assert_eq!(StoreError::NotFound.message(), "not found");
    assert_eq!(StoreError::PersistenceFailure.message(), "persistence failure");
    assert_ne!(StoreError::NotFound, StoreError::PersistenceFailure);
}

#[test]
fn fresh_identifiers_are_hyphenated_lower_hex_and_differ() {
    let fresh = |name: &str| Group::new(name.to_string(), String::new(), "alice".to_string()).id;
    let id = fresh("a");
    assert_eq!(id.len(), 36);
    for (i, c) in id.chars().enumerate() {
        if i == 8 || i == 13 || i == 18 || i == 23 {
            assert_eq!(c, '-');
        } else {
            assert!(c.is_ascii_digit() || ('a'..='f').contains(&c), "unexpected {c} at {i}");
        }
    }
    assert_ne!(id, fresh("a"));
}

#[test]
fn the_time_is_written_with_date_and_offset() {
    let now = Group::new("a".to_string(), String::new(), "alice".to_string()).created_at;
    assert!(now.len() >= 20);
    assert_eq!(&now[4..5], "-");
    assert_eq!(&now[10..11], "T");
    assert!(now.ends_with("+00:00"));
}
