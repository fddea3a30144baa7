//! What holds of the store's states: which states are valid, that the
//! operations keep them so, and how the operations answer one another.

use vstd::prelude::*;
use crate::models::{ApprovedTagView, GroupView, ImageView, TagSuggestionView, TagUpvoteView};
use crate::services::data_service::StoreView;

verus! {

impl StoreView {
    /// No group has a member twice, no approved tag counts fewer than zero
    /// upvotes, and no user has two upvotes on one tag.
    pub open spec fn valid(self) -> bool {
        &&& forall|k: Seq<char>| self.groups.contains_key(k) ==> (#[trigger] self.groups[k]).valid()
        &&& forall|k: Seq<char>|
            self.approved_tags.contains_key(k) ==> (#[trigger] self.approved_tags[k]).valid()
        &&& forall|j: Seq<char>, k: Seq<char>|
            self.tag_upvotes.contains_key(j) && self.tag_upvotes.contains_key(k) && j != k ==> !(
            #[trigger] self.tag_upvotes[j]).is_of(
                (#[trigger] self.tag_upvotes[k]).tag_id,
                self.tag_upvotes[k].user_id,
            )
    }

    /// The empty state is valid.
    pub proof fn lemma_empty_valid()
        ensures
            StoreView::empty().valid(),
    {
    }

    /// Putting a valid group or any image into a valid state leaves it
    /// valid.
    pub proof fn lemma_creation_keeps_valid(self, key: Seq<char>, group: GroupView, image: ImageView)
        requires
            self.valid(),
        ensures
            group.valid() ==> self.with_group(key, group).valid(),
            self.with_image(key, image).valid(),
    {
    }

    /// Changing a group's members, name or description leaves a valid
    /// state valid.
    pub proof fn lemma_group_changes_keep_valid(
        self,
        group_id: Seq<char>,
        username: Seq<char>,
        name: Seq<char>,
        description: Seq<char>,
    )
        requires
            self.valid(),
        ensures
            self.with_member(group_id, username).valid(),
            self.without_member(group_id, username).valid(),
            self.with_group_renamed(group_id, name, description).valid(),
    {
        if self.groups.contains_key(group_id) {
            self.groups[group_id].lemma_with_member_valid(username);
            self.groups[group_id].lemma_without_member_valid(username);
        }
    }

    /// Deleting a group, an image or an approved tag leaves a valid state
    /// valid.
    pub proof fn lemma_deletions_keep_valid(self, id: Seq<char>)
        requires
            self.valid(),
        ensures
            self.without_group(id).valid(),
            self.without_image(id).valid(),
            self.without_approved_tag(id).valid(),
    {
    }

    /// Recording a suggestion or a verdict on one, or a valid approved
    /// tag, leaves a valid state valid.
    pub proof fn lemma_tag_changes_keep_valid(
        self,
        suggestion: TagSuggestionView,
        id: Seq<char>,
        status: Seq<char>,
        reviewed_by: Seq<char>,
        reviewed_at: Seq<char>,
        tag: ApprovedTagView,
    )
        requires
            self.valid(),
        ensures
            self.with_suggestion(suggestion).valid(),
            self.reviewed(id, status, reviewed_by, reviewed_at).valid(),
            tag.valid() ==> self.with_approved_tag(tag).valid(),
    {
    }

    /// Toggling an upvote leaves a valid state valid.
    pub proof fn lemma_toggle_keeps_valid(self, tag_id: Seq<char>, user_id: Seq<char>, fresh: TagUpvoteView)
        requires
            self.valid(),
            fresh.is_of(tag_id, user_id),
        ensures
            self.toggled(tag_id, user_id, fresh).valid(),
    {
        let after = self.toggled(tag_id, user_id, fresh);
        if !self.has_upvote(tag_id, user_id) {
            assert forall|j: Seq<char>, k: Seq<char>|
                after.tag_upvotes.contains_key(j) && after.tag_upvotes.contains_key(k) && j != k implies !(
            #[trigger] after.tag_upvotes[j]).is_of(
                (#[trigger] after.tag_upvotes[k]).tag_id,
                after.tag_upvotes[k].user_id,
            ) by {
                if j != fresh.id {
                    assert(self.tag_upvotes.contains_key(j) && !self.tag_upvotes[j].is_of(tag_id, user_id));
                }
                if k != fresh.id {
                    assert(self.tag_upvotes.contains_key(k) && !self.tag_upvotes[k].is_of(tag_id, user_id));
                }
            }
        }
    }

    /// A user sees an image exactly when some group that has the user as a
    /// member carries the identifier that the image names as its group.
    pub proof fn lemma_images_of_user(self, username: Seq<char>, key: Seq<char>)
        ensures
            self.images_of_user(username).contains_key(key) <==> self.images.contains_key(key) && exists|
                g: Seq<char>,
            |
                self.groups.contains_key(g) && (#[trigger] self.groups[g]).id == self.images[key].group_id
                    && self.groups[g].members.contains(username),
            self.images_of_user(username).contains_key(key) ==> self.images_of_user(username)[key]
                == self.images[key],
    {
    }

    /// Adding a member a second time changes nothing: the state after two
    /// additions of one user to one group is the state after one, and the
    /// group has as many members.
    pub proof fn lemma_add_member_twice(self, group_id: Seq<char>, username: Seq<char>)
        ensures
            self.with_member(group_id, username).with_member(group_id, username) == self.with_member(
                group_id,
                username,
            ),
            self.groups.contains_key(group_id) ==> self.with_member(group_id, username).with_member(
                group_id,
                username,
            ).groups[group_id].members.len() == self.with_member(
                group_id,
                username,
            ).groups[group_id].members.len(),
    {
        let once = self.with_member(group_id, username);
        let twice = once.with_member(group_id, username);
        if self.groups.contains_key(group_id) {
            let group = self.groups[group_id];
            if !group.members.contains(username) {
                assert(group.members.push(username)[group.members.len() as int] == username);
            }
            assert(once.groups[group_id].members.contains(username));
            assert(twice.groups =~= once.groups);
        }
    }

    /// Deleting a group that the store holds takes with it every image of
    /// the group, and with each such image the suggestions and approved
    /// tags that name it. No image that names the group is left, and
    /// nothing else goes.
    pub proof fn lemma_delete_group_cascades(self, id: Seq<char>)
        requires
            self.groups.contains_key(id),
        ensures
            !self.without_group(id).groups.contains_key(id),
            forall|k: Seq<char>|
                self.without_group(id).images.contains_key(k) ==> (#[trigger] self.without_group(
                    id,
                ).images[k]).group_id != id,
            forall|k: Seq<char>|
                self.images.contains_key(k) && (#[trigger] self.images[k]).group_id == id
                    ==> !self.without_group(id).images.contains_key(k),
            forall|j: Seq<char>|
                self.without_group(id).tag_suggestions.contains_key(j) ==> !self.images_in_group(id).contains(
                    (#[trigger] self.without_group(id).tag_suggestions[j]).image_id,
                ),
            forall|j: Seq<char>|
                self.without_group(id).approved_tags.contains_key(j) ==> !self.images_in_group(id).contains(
                    (#[trigger] self.without_group(id).approved_tags[j]).image_id,
                ),
            forall|k: Seq<char>|
                k != id && self.groups.contains_key(k) ==> self.without_group(id).groups.contains_key(k)
                    && self.without_group(id).groups[k] == #[trigger] self.groups[k],
            forall|k: Seq<char>|
                self.images.contains_key(k) && (#[trigger] self.images[k]).group_id != id
                    ==> self.without_group(id).images.contains_key(k) && self.without_group(id).images[k]
                    == self.images[k],
            forall|j: Seq<char>|
                self.tag_suggestions.contains_key(j) && !self.images_in_group(id).contains(
                    (#[trigger] self.tag_suggestions[j]).image_id,
                ) ==> self.without_group(id).tag_suggestions.contains_key(j),
            forall|j: Seq<char>|
                self.approved_tags.contains_key(j) && !self.images_in_group(id).contains(
                    (#[trigger] self.approved_tags[j]).image_id,
                ) ==> self.without_group(id).approved_tags.contains_key(j),
            self.without_group(id).tag_upvotes == self.tag_upvotes,
    {
    }

    /// Deleting an image that the store holds takes with it the
    /// suggestions and approved tags that name it, and nothing else: the
    /// other images, the groups and the upvotes stay, also the upvotes on
    /// approved tags that went.
    pub proof fn lemma_delete_image_cascades(self, id: Seq<char>)
        requires
            self.images.contains_key(id),
        ensures
            !self.without_image(id).images.contains_key(id),
            forall|j: Seq<char>|
                self.without_image(id).tag_suggestions.contains_key(j) ==> (#[trigger] self.without_image(
                    id,
                ).tag_suggestions[j]).image_id != id,
            forall|j: Seq<char>|
                self.without_image(id).approved_tags.contains_key(j) ==> (#[trigger] self.without_image(
                    id,
                ).approved_tags[j]).image_id != id,
            forall|k: Seq<char>|
                k != id && self.images.contains_key(k) ==> self.without_image(id).images.contains_key(k)
                    && self.without_image(id).images[k] == #[trigger] self.images[k],
            forall|j: Seq<char>|
                self.tag_suggestions.contains_key(j) && (#[trigger] self.tag_suggestions[j]).image_id != id
                    ==> self.without_image(id).tag_suggestions.contains_key(j),
            forall|j: Seq<char>|
                self.approved_tags.contains_key(j) && (#[trigger] self.approved_tags[j]).image_id != id
                    ==> self.without_image(id).approved_tags.contains_key(j),
            self.without_image(id).groups == self.groups,
            self.without_image(id).tag_upvotes == self.tag_upvotes,
    {
    }

    /// Deleting an approved tag that the store holds takes with it the
    /// upvotes that name it, and nothing else.
    pub proof fn lemma_delete_approved_tag_cascades(self, id: Seq<char>)
        requires
            self.approved_tags.contains_key(id),
        ensures
            !self.without_approved_tag(id).approved_tags.contains_key(id),
            forall|j: Seq<char>|
                self.without_approved_tag(id).tag_upvotes.contains_key(j) ==> (
                #[trigger] self.without_approved_tag(id).tag_upvotes[j]).tag_id != id,
            forall|j: Seq<char>|
                self.tag_upvotes.contains_key(j) && (#[trigger] self.tag_upvotes[j]).tag_id != id
                    ==> self.without_approved_tag(id).tag_upvotes.contains_key(j),
            forall|k: Seq<char>|
                k != id && self.approved_tags.contains_key(k) ==> self.without_approved_tag(
                    id,
                ).approved_tags.contains_key(k) && self.without_approved_tag(id).approved_tags[k]
                    == #[trigger] self.approved_tags[k],
            self.without_approved_tag(id).groups == self.groups,
            self.without_approved_tag(id).images == self.images,
            self.without_approved_tag(id).tag_suggestions == self.tag_suggestions,
    {
    }

    /// A user without an upvote on a tag who toggles twice is back where
    /// the user began: the tag counts as many upvotes as before, and the
    /// user has no upvote on it. The whole state is as before where the
    /// first upvote came under a key that the store did not hold.
    pub proof fn lemma_toggle_twice(
        self,
        tag_id: Seq<char>,
        user_id: Seq<char>,
        first: TagUpvoteView,
        second: TagUpvoteView,
    )
        requires
            !self.has_upvote(tag_id, user_id),
            first.is_of(tag_id, user_id),
            self.approved_tags.contains_key(tag_id) ==> self.approved_tags[tag_id].valid(),
        ensures
            self.toggled(tag_id, user_id, first).has_upvote(tag_id, user_id),
            !self.toggled(tag_id, user_id, first).toggled(tag_id, user_id, second).has_upvote(
                tag_id,
                user_id,
            ),
            self.toggled(tag_id, user_id, first).toggled(tag_id, user_id, second).approved_tags
                == self.approved_tags,
            !self.tag_upvotes.contains_key(first.id) ==> self.toggled(tag_id, user_id, first).toggled(
                tag_id,
                user_id,
                second,
            ) == self,
    {
        let once = self.toggled(tag_id, user_id, first);
        assert(once == self.with_upvote(first));
        assert(once.tag_upvotes.contains_key(first.id) && once.tag_upvotes[first.id].is_of(tag_id, user_id));
        assert(once.has_upvote(tag_id, user_id));
        let twice = once.toggled(tag_id, user_id, second);
        assert(twice == once.without_upvote(tag_id, user_id));
        assert(twice.approved_tags =~= self.approved_tags);
        if twice.has_upvote(tag_id, user_id) {
            let k = choose|k: Seq<char>|
                twice.tag_upvotes.contains_key(k) && (#[trigger] twice.tag_upvotes[k]).is_of(tag_id, user_id);
            assert(false);
        }
        if !self.tag_upvotes.contains_key(first.id) {
            assert forall|k: Seq<char>| self.tag_upvotes.contains_key(k) implies !(
            #[trigger] self.tag_upvotes[k]).is_of(tag_id, user_id) by {}
            assert(twice.tag_upvotes =~= self.tag_upvotes);
        }
    }

    /// Loading the snapshot of a state brings that state back, whatever
    /// state the loading store was in.
    pub proof fn lemma_snapshot_round_trip(self, loading: StoreView)
        ensures
            loading.loaded(Some(self)) == self,
            loading.loaded(None) == loading,
    {
    }
}

} // verus!
