use annotation_store::handlers::{
    add_user_to_group, create_group, remove_user_from_group, update_group,
};
use annotation_store::error::StoreError;
use annotation_store::models::{
    AddUserToGroupRequest, CreateGroupRequest, Group, Image, UpdateGroupRequest,
};
use annotation_store::services::DataService;

fn photos_by_alice() -> Group {
    Group::with_identity(
        "Photos".to_string(),
        "2024-01-01T00:00:00+00:00".to_string(),
        "Photos".to_string(),
        "Holiday pictures".to_string(),
        "alice".to_string(),
    )
}

fn add_request(username: &str) -> AddUserToGroupRequest {
    AddUserToGroupRequest { group_id: String::new(), username: username.to_string() }
}

fn sorted(mut names: Vec<String>) -> Vec<String> {
    names.sort();
    names
}

#[test]
fn new_group_has_creator_as_sole_member() {
    let group = Group::new("Photos".to_string(), "Holiday pictures".to_string(), "alice".to_string());
    assert_eq!(group.name, "Photos");
    assert_eq!(group.description, "Holiday pictures");
    assert_eq!(group.created_by, "alice");
    assert_eq!(group.members, vec!["alice".to_string()]);
    assert_eq!(group.id.len(), 36);
    assert!(!group.created_at.is_empty());
}

#[test]
fn group_with_identity_keeps_what_it_is_given() {
    let group = photos_by_alice();
    assert_eq!(group.id, "Photos");
    assert_eq!(group.created_at, "2024-01-01T00:00:00+00:00");
    assert_eq!(group.members, vec!["alice".to_string()]);
}

#[test]
fn add_member_appends_a_new_user() {
    let mut group = photos_by_alice();
    group.add_member("bob".to_string());
    assert_eq!(group.members, vec!["alice".to_string(), "bob".to_string()]);
}

#[test]
fn add_member_twice_leaves_the_count_unchanged() {
    let mut group = photos_by_alice();
    group.add_member("bob".to_string());
    let after_first = group.members.len();
    group.add_member("bob".to_string());
    assert_eq!(group.members.len(), after_first);
    assert_eq!(group.members, vec!["alice".to_string(), "bob".to_string()]);
}

#[test]
fn add_member_of_the_creator_changes_nothing() {
    let mut group = photos_by_alice();
    group.add_member("alice".to_string());
    assert_eq!(group.members, vec!["alice".to_string()]);
}

#[test]
fn remove_member_takes_the_user_out() {
    let mut group = photos_by_alice();
    group.add_member("bob".to_string());
    group.add_member("carol".to_string());
    group.remove_member("bob");
    assert_eq!(group.members, vec!["alice".to_string(), "carol".to_string()]);
}

#[test]
fn remove_member_of_a_stranger_changes_nothing() {
    let mut group = photos_by_alice();
    group.remove_member("mallory");
    assert_eq!(group.members, vec!["alice".to_string()]);
}

#[test]
fn remove_member_takes_every_occurrence_out() {
    let mut group = photos_by_alice();
    group.members.push("bob".to_string());
    group.members.push("alice".to_string());
    group.remove_member("alice");
    assert_eq!(group.members, vec!["bob".to_string()]);
}

#[test]
fn group_clone_holds_the_same() {
    let mut group = photos_by_alice();
    group.add_member("bob".to_string());
    let copy = group.clone();
    assert_eq!(copy.id, group.id);
    assert_eq!(copy.name, group.name);
    assert_eq!(copy.description, group.description);
    assert_eq!(copy.created_at, group.created_at);
    assert_eq!(copy.created_by, group.created_by);
    assert_eq!(copy.members, group.members);
}

#[test]
fn store_create_group_returns_the_groups_identifier() {
    let mut data = DataService::new();
    let id = data.create_group(photos_by_alice());
    assert_eq!(id, "Photos");
    let group = data.get_group("Photos").expect("the group was stored");
    assert_eq!(group.name, "Photos");
    assert_eq!(group.members, vec!["alice".to_string()]);
    assert!(data.get_group("Other").is_none());
    assert_eq!(data.get_all_groups().len(), 1);
}

#[test]
fn store_create_group_replaces_a_group_under_the_same_identifier() {
    let mut data = DataService::new();
    data.create_group(photos_by_alice());
    let mut second = photos_by_alice();
    second.name = "Renewed".to_string();
    data.create_group(second);
    assert_eq!(data.get_all_groups().len(), 1);
    assert_eq!(data.get_group("Photos").unwrap().name, "Renewed");
}

#[test]
fn get_group_mut_changes_the_stored_group() {
    let mut data = DataService::new();
    data.create_group(photos_by_alice());
    data.get_group_mut("Photos").unwrap().add_member("bob".to_string());
    assert_eq!(
        data.get_group("Photos").unwrap().members,
        vec!["alice".to_string(), "bob".to_string()]
    );
    assert!(data.get_group_mut("Other").is_none());
}

#[test]
fn get_all_groups_lists_every_group_once() {
    let mut data = DataService::new();
    assert!(data.get_all_groups().is_empty());
    data.create_group(photos_by_alice());
    let mut other = photos_by_alice();
    other.id = "Travel".to_string();
    data.create_group(other);
    let ids = sorted(data.get_all_groups().iter().map(|g| g.id.clone()).collect());
    assert_eq!(ids, vec!["Photos".to_string(), "Travel".to_string()]);
}

#[test]
fn create_group_request_makes_a_group_with_a_fresh_identifier() {
    let mut data = DataService::new();
    let req = CreateGroupRequest { name: "Photos".to_string(), description: "Pictures".to_string() };
    let id = create_group(&mut data, &req, "admin".to_string());
    assert_eq!(id.len(), 36);
    let group = data.get_group(&id).expect("the group was stored under its identifier");
    assert_eq!(group.id, id);
    assert_eq!(group.name, "Photos");
    assert_eq!(group.description, "Pictures");
    assert_eq!(group.created_by, "admin");
    assert_eq!(group.members, vec!["admin".to_string()]);
    let second = create_group(&mut data, &req, "admin".to_string());
    assert_ne!(id, second);
    assert_eq!(data.get_all_groups().len(), 2);
}

#[test]
fn add_user_to_group_is_idempotent() {
    let mut data = DataService::new();
    data.create_group(photos_by_alice());
    assert_eq!(add_user_to_group(&mut data, "Photos", &add_request("bob")), Ok(()));
    assert_eq!(data.get_group("Photos").unwrap().members.len(), 2);
    assert_eq!(add_user_to_group(&mut data, "Photos", &add_request("bob")), Ok(()));
    assert_eq!(
        data.get_group("Photos").unwrap().members,
        vec!["alice".to_string(), "bob".to_string()]
    );
}

#[test]
fn add_user_to_group_fails_without_the_group() {
    let mut data = DataService::new();
    data.create_group(photos_by_alice());
    assert_eq!(
        add_user_to_group(&mut data, "Missing", &add_request("bob")),
        Err(StoreError::NotFound)
    );
    assert_eq!(data.get_group("Photos").unwrap().members, vec!["alice".to_string()]);
}

#[test]
fn remove_user_from_group_removes_and_tolerates_strangers() {
    let mut data = DataService::new();
    data.create_group(photos_by_alice());
    add_user_to_group(&mut data, "Photos", &add_request("bob")).unwrap();
    assert_eq!(remove_user_from_group(&mut data, "Photos", "alice"), Ok(()));
    assert_eq!(data.get_group("Photos").unwrap().members, vec!["bob".to_string()]);
    assert_eq!(remove_user_from_group(&mut data, "Photos", "mallory"), Ok(()));
    assert_eq!(data.get_group("Photos").unwrap().members, vec!["bob".to_string()]);
    assert_eq!(remove_user_from_group(&mut data, "Missing", "bob"), Err(StoreError::NotFound));
}

#[test]
fn update_group_overwrites_name_and_description() {
    let mut data = DataService::new();
    data.create_group(photos_by_alice());
    let req = UpdateGroupRequest {
        group_id: String::new(),
        name: "Albums".to_string(),
        description: "All of them".to_string(),
    };
    assert_eq!(update_group(&mut data, "Photos", &req), Ok(()));
    let group = data.get_group("Photos").unwrap();
    assert_eq!(group.name, "Albums");
    assert_eq!(group.description, "All of them");
    assert_eq!(group.id, "Photos");
    assert_eq!(group.created_by, "alice");
    assert_eq!(group.members, vec!["alice".to_string()]);
    assert_eq!(update_group(&mut data, "Missing", &req), Err(StoreError::NotFound));
}

#[test]
fn scenario_members_decide_who_sees_an_image() {
    let mut data = DataService::new();
    data.create_group(photos_by_alice());
    assert_eq!(data.get_group("Photos").unwrap().members, vec!["alice".to_string()]);
    add_user_to_group(&mut data, "Photos", &add_request("bob")).unwrap();
    assert_eq!(
        sorted(data.get_group("Photos").unwrap().members.clone()),
        vec!["alice".to_string(), "bob".to_string()]
    );
    let image = Image::new(
        "cat.png".to_string(),
        "cat.png".to_string(),
        "Photos".to_string(),
        "bob".to_string(),
    );
    let image_id = data.create_image(image);
    let seen_by_bob = data.get_user_images("bob");
    assert_eq!(seen_by_bob.len(), 1);
    assert_eq!(seen_by_bob[0].id, image_id);
    assert_eq!(seen_by_bob[0].filename, "cat.png");
    assert!(data.get_user_images("carol").is_empty());
}
