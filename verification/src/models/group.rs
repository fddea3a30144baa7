//! Groups of users, and what a request about a group carries.

use vstd::prelude::*;
use crate::outside::{is_id_text, new_id, now_rfc3339};
use crate::text::{contains_text, copy_texts, lemma_filter_push, other_than, texts};

verus! {

/// A named set of users who see each other's images.
#[derive(Debug)]
pub struct Group {
    pub id: String,
    pub name: String,
    pub description: String,
    pub created_at: String,
    pub created_by: String,
    pub members: Vec<String>,
}

/// What a [`Group`] holds, as plain text.
pub struct GroupView {
    pub id: Seq<char>,
    pub name: Seq<char>,
    pub description: Seq<char>,
    pub created_at: Seq<char>,
    pub created_by: Seq<char>,
    pub members: Seq<Seq<char>>,
}

impl View for Group {
    type V = GroupView;

    open spec fn view(&self) -> GroupView {
        GroupView {
            id: self.id@,
            name: self.name@,
            description: self.description@,
            created_at: self.created_at@,
            created_by: self.created_by@,
            members: texts(self.members@),
        }
    }
}

impl GroupView {
    /// No user is a member twice.
    pub open spec fn valid(self) -> bool {
        self.members.no_duplicates()
    }

    /// The group with `username` among its members: unchanged if the user
    /// is one already, else with the user added behind the others.
    pub open spec fn with_member(self, username: Seq<char>) -> GroupView {
        if self.members.contains(username) {
            self
        } else {
            GroupView { members: self.members.push(username), ..self }
        }
    }

    /// The group with every occurrence of `username` taken out of its
    /// members.
    pub open spec fn without_member(self, username: Seq<char>) -> GroupView {
        GroupView { members: self.members.filter(other_than(username)), ..self }
    }

    /// The group under a new name and description.
    pub open spec fn renamed(self, name: Seq<char>, description: Seq<char>) -> GroupView {
        GroupView { name, description, ..self }
    }

    /// Adding a member keeps a valid group valid.
    pub proof fn lemma_with_member_valid(self, username: Seq<char>)
        requires
            self.valid(),
        ensures
            self.with_member(username).valid(),
            self.with_member(username).members.contains(username),
    {
        if !self.members.contains(username) {
            let after = self.members.push(username);
            assert(after[self.members.len() as int] == username);
            assert forall|i: int, j: int| 0 <= i < after.len() && 0 <= j < after.len() && i != j implies after[i]
                != after[j] by {
                if i < self.members.len() {
                    assert(self.members.contains(self.members[i]));
                }
                if j < self.members.len() {
                    assert(self.members.contains(self.members[j]));
                }
            }
        }
    }

    /// Removing a member keeps a valid group valid, and the user is gone.
    pub proof fn lemma_without_member_valid(self, username: Seq<char>)
        requires
            self.valid(),
        ensures
            self.without_member(username).valid(),
            !self.without_member(username).members.contains(username),
    {
        crate::text::lemma_filter_no_duplicates(self.members, other_than(username));
    }
}

impl Clone for Group {
    fn clone(&self) -> (copy: Self)
        ensures
            copy@ == self@,
    {
        Group {
            id: self.id.clone(),
            name: self.name.clone(),
            description: self.description.clone(),
            created_at: self.created_at.clone(),
            created_by: self.created_by.clone(),
            members: copy_texts(&self.members),
        }
    }
}

impl Group {
    /// A group under the given identifier and creation time, with its
    /// creator as the only member.
    pub fn with_identity(
        id: String,
        created_at: String,
        name: String,
        description: String,
        created_by: String,
    ) -> (group: Self)
        ensures
            group@ == (GroupView {
                id: id@,
                name: name@,
                description: description@,
                created_at: created_at@,
                created_by: created_by@,
                members: seq![created_by@],
            }),
            group@.valid(),
    {
        let mut members: Vec<String> = Vec::new();
        members.push(created_by.clone());
        assert(texts(members@) =~= seq![created_by@]);
        Group { id, name, description, created_at, created_by, members }
    }

    /// A new group with a fresh identifier, created now, with its creator
    /// as the only member.
    pub fn new(name: String, description: String, created_by: String) -> (group: Self)
        ensures
            group@ == (GroupView {
                id: group@.id,
                name: name@,
                description: description@,
                created_at: group@.created_at,
                created_by: created_by@,
                members: seq![created_by@],
            }),
            is_id_text(group@.id),
            group@.valid(),
    {
        Group::with_identity(new_id(), now_rfc3339(), name, description, created_by)
    }

    /// Makes `username` a member. A user who is one already is not added a
    /// second time.
    pub fn add_member(&mut self, username: String)
        ensures
            final(self)@ == old(self)@.with_member(username@),
            old(self)@.valid() ==> final(self)@.valid(),
    {
        proof {
            if self@.valid() {
                self@.lemma_with_member_valid(username@);
            }
        }
        if !contains_text(&self.members, username.as_str()) {
            self.members.push(username);
            assert(texts(self.members@) =~= texts(old(self).members@).push(username@));
        }
    }

    /// Takes `username` out of the members, wherever it stands.
    pub fn remove_member(&mut self, username: &str)
        ensures
            final(self)@ == old(self)@.without_member(username@),
            old(self)@.valid() ==> final(self)@.valid(),
    {
        let ghost before = texts(self.members@);
        let ghost keep = other_than(username@);
        proof {
            if self@.valid() {
                self@.lemma_without_member_valid(username@);
            }
        }
        let mut i: usize = 0;
        let ghost mut seen: int = 0;
        while i < self.members.len()
            invariant
                0 <= seen <= before.len(),
                keep == other_than(username@),
                i <= self.members@.len(),
                i == before.take(seen).filter(keep).len(),
                texts(self.members@) == before.take(seen).filter(keep) + before.skip(seen),
                self.id == old(self).id,
                self.name == old(self).name,
                self.description == old(self).description,
                self.created_at == old(self).created_at,
                self.created_by == old(self).created_by,
            decreases before.len() - seen,
        {
            let ghost kept = before.take(seen).filter(keep);
            let ghost current = texts(self.members@);
            proof {
                assert(current[i as int] == before.skip(seen)[0]);
                assert(current[i as int] == self.members@[i as int]@);
                assert(self.members@[i as int]@ == before[seen]);
                assert(before.take(seen + 1) =~= before.take(seen).push(before[seen]));
                lemma_filter_push(before.take(seen), before[seen], keep);
            }
            if *self.members[i].as_str() == *username {
                self.members.remove(i);
                proof {
                    assert(!keep(before[seen]));
                    assert(texts(self.members@) =~= current.remove(i as int));
                    assert(current.remove(i as int) =~= kept + before.skip(seen + 1));
                    seen = seen + 1;
                }
            } else {
                proof {
                    assert(keep(before[seen]));
                    assert(kept.push(before[seen]) + before.skip(seen + 1) =~= kept + before.skip(seen));
                    seen = seen + 1;
                }
                i += 1;
            }
        }
        proof {
            assert(before.take(seen) =~= before);
            assert(texts(self.members@) =~= before.filter(keep));
        }
    }
}

/// What a request to create a group carries.
#[derive(Debug)]
pub struct CreateGroupRequest {
    pub name: String,
    pub description: String,
}

/// What a request to add a user to a group carries.
#[derive(Debug)]
pub struct AddUserToGroupRequest {
    pub group_id: String,
    pub username: String,
}

/// What a request to remove a user from a group carries.
#[derive(Debug)]
pub struct RemoveUserFromGroupRequest {
    pub group_id: String,
    pub username: String,
}

/// What a request to rename a group carries.
#[derive(Debug)]
pub struct UpdateGroupRequest {
    pub group_id: String,
    pub name: String,
    pub description: String,
}

/// What a request to delete a group carries.
#[derive(Debug)]
pub struct DeleteGroupRequest {
    pub group_id: String,
}

} // verus!
