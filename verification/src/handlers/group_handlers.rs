//! What the requests about groups do to the store.

use vstd::prelude::*;
use crate::error::StoreError;
use crate::models::{AddUserToGroupRequest, CreateGroupRequest, Group, GroupView, UpdateGroupRequest};
use crate::outside::is_id_text;
use crate::services::DataService;

verus! {

/// Creates a group as the request names and describes it, with
/// `created_by` as its creator and only member, and hands the group's
/// identifier back. The identifier is fresh and the time is the present
/// one.
pub fn create_group(data: &mut DataService, req: &CreateGroupRequest, created_by: String) -> (id: String)
    ensures
        is_id_text(id@),
        final(data)@.groups.contains_key(id@),
        final(data)@ == old(data)@.with_group(
            id@,
            GroupView {
                id: id@,
                name: req.name@,
                description: req.description@,
                created_at: final(data)@.groups[id@].created_at,
                created_by: created_by@,
                members: seq![created_by@],
            },
        ),
{
    let group = Group::new(req.name.clone(), req.description.clone(), created_by);
    data.create_group(group)
}

/// Makes the request's user a member of the group under `group_id`; a user
/// who is one already stays one, once. Without such a group the request
/// fails and nothing changes.
pub fn add_user_to_group(data: &mut DataService, group_id: &str, req: &AddUserToGroupRequest) -> (done:
    Result<(), StoreError>)
    ensures
        final(data)@ == old(data)@.with_member(group_id@, req.username@),
        match done {
            Ok(_) => old(data)@.groups.contains_key(group_id@),
            Err(e) => e == StoreError::NotFound && !old(data)@.groups.contains_key(group_id@),
        },
{
    match data.get_group_mut(group_id) {
        Some(group) => {
            group.add_member(req.username.clone());
            Ok(())
        },
        None => Err(StoreError::NotFound),
    }
}

/// Takes `username` out of the group under `group_id`; a user who is no
/// member leaves the group as it is. Without such a group the request fails
/// and nothing changes.
pub fn remove_user_from_group(data: &mut DataService, group_id: &str, username: &str) -> (done: Result<
    (),
    StoreError,
>)
    ensures
        final(data)@ == old(data)@.without_member(group_id@, username@),
        match done {
            Ok(_) => old(data)@.groups.contains_key(group_id@),
            Err(e) => e == StoreError::NotFound && !old(data)@.groups.contains_key(group_id@),
        },
{
    match data.get_group_mut(group_id) {
        Some(group) => {
            group.remove_member(username);
            Ok(())
        },
        None => Err(StoreError::NotFound),
    }
}

/// Gives the group under `group_id` the request's name and description.
/// Without such a group the request fails and nothing changes.
pub fn update_group(data: &mut DataService, group_id: &str, req: &UpdateGroupRequest) -> (done: Result<
    (),
    StoreError,
>)
    ensures
        final(data)@ == old(data)@.with_group_renamed(group_id@, req.name@, req.description@),
        match done {
            Ok(_) => old(data)@.groups.contains_key(group_id@),
            Err(e) => e == StoreError::NotFound && !old(data)@.groups.contains_key(group_id@),
        },
{
    match data.get_group_mut(group_id) {
        Some(group) => {
            group.name = req.name.clone();
            group.description = req.description.clone();
            Ok(())
        },
        None => Err(StoreError::NotFound),
    }
}

} // verus!
