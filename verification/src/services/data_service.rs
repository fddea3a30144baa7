//! The store: five collections of records, and the operations that keep
//! them consistent.

use vstd::prelude::*;
use crate::error::StoreError;
use crate::links::{HasMember, InGroup, InGroups, OfImage, OfImages, OfTag, UpvoteOf};
use crate::models::{
    AnnotationsExport, ApprovedTag, ApprovedTagView, Group, GroupView, Image, ImageView, TagSuggestion,
    TagSuggestionView, TagUpvote, TagUpvoteView,
};
use crate::table::{
    kept, lemma_lists_len, lemma_lists_map_values, lemma_lists_values, lists, passing, seen,
    targets, view_of, views, Table,
};
use crate::text::texts;

verus! {

/// The state of a store: each collection as a map from a key to what the
/// record under it holds.
pub struct StoreView {
    pub groups: Map<Seq<char>, GroupView>,
    pub images: Map<Seq<char>, ImageView>,
    pub tag_suggestions: Map<Seq<char>, TagSuggestionView>,
    pub approved_tags: Map<Seq<char>, ApprovedTagView>,
    pub tag_upvotes: Map<Seq<char>, TagUpvoteView>,
}

impl StoreView {
    /// The state without any record.
    pub open spec fn empty() -> StoreView {
        StoreView {
            groups: Map::empty(),
            images: Map::empty(),
            tag_suggestions: Map::empty(),
            approved_tags: Map::empty(),
            tag_upvotes: Map::empty(),
        }
    }

    /// The state with `group` under `key`.
    pub open spec fn with_group(self, key: Seq<char>, group: GroupView) -> StoreView {
        StoreView { groups: self.groups.insert(key, group), ..self }
    }

    /// The state with `image` under `key`.
    pub open spec fn with_image(self, key: Seq<char>, image: ImageView) -> StoreView {
        StoreView { images: self.images.insert(key, image), ..self }
    }

    /// The identifiers of the groups that have `username` as a member.
    pub open spec fn groups_of_user(self, username: Seq<char>) -> Set<Seq<char>> {
        Set::new(
            |group_id: Seq<char>|
                exists|k: Seq<char>|
                    self.groups.contains_key(k) && (#[trigger] self.groups[k]).id == group_id
                        && self.groups[k].members.contains(username),
        )
    }

    /// The images that `username` may see: those whose group has the user
    /// as a member.
    pub open spec fn images_of_user(self, username: Seq<char>) -> Map<Seq<char>, ImageView> {
        kept(self.images, |image: ImageView| self.groups_of_user(username).contains(image.group_id))
    }

    /// The keys of the images of the group `group_id`.
    pub open spec fn images_in_group(self, group_id: Seq<char>) -> Set<Seq<char>> {
        Set::new(|k: Seq<char>| self.images.contains_key(k) && self.images[k].group_id == group_id)
    }

    /// The state after the image under `id` is deleted: the image is gone,
    /// and with it the suggestions and approved tags that name it. Upvotes
    /// stay. Without such an image nothing changes.
    pub open spec fn without_image(self, id: Seq<char>) -> StoreView {
        if self.images.contains_key(id) {
            StoreView {
                images: self.images.remove(id),
                tag_suggestions: kept(self.tag_suggestions, |s: TagSuggestionView| s.image_id != id),
                approved_tags: kept(self.approved_tags, |t: ApprovedTagView| t.image_id != id),
                ..self
            }
        } else {
            self
        }
    }

    /// The state after the group under `id` is deleted: the group is gone,
    /// and with it every image of the group, and with each such image the
    /// suggestions and approved tags that name it. Upvotes stay. Without
    /// such a group nothing changes.
    pub open spec fn without_group(self, id: Seq<char>) -> StoreView {
        if self.groups.contains_key(id) {
            StoreView {
                groups: self.groups.remove(id),
                images: kept(self.images, |image: ImageView| image.group_id != id),
                tag_suggestions: kept(
                    self.tag_suggestions,
                    |s: TagSuggestionView| !self.images_in_group(id).contains(s.image_id),
                ),
                approved_tags: kept(
                    self.approved_tags,
                    |t: ApprovedTagView| !self.images_in_group(id).contains(t.image_id),
                ),
                tag_upvotes: self.tag_upvotes,
            }
        } else {
            self
        }
    }

    /// The state with `username` made a member of the group under
    /// `group_id`. Without such a group nothing changes.
    pub open spec fn with_member(self, group_id: Seq<char>, username: Seq<char>) -> StoreView {
        if self.groups.contains_key(group_id) {
            StoreView {
                groups: self.groups.insert(group_id, self.groups[group_id].with_member(username)),
                ..self
            }
        } else {
            self
        }
    }

    /// The state with `username` taken out of the group under `group_id`.
    /// Without such a group nothing changes.
    pub open spec fn without_member(self, group_id: Seq<char>, username: Seq<char>) -> StoreView {
        if self.groups.contains_key(group_id) {
            StoreView {
                groups: self.groups.insert(group_id, self.groups[group_id].without_member(username)),
                ..self
            }
        } else {
            self
        }
    }

    /// The state with the group under `group_id` given a new name and
    /// description. Without such a group nothing changes.
    pub open spec fn with_group_renamed(
        self,
        group_id: Seq<char>,
        name: Seq<char>,
        description: Seq<char>,
    ) -> StoreView {
        if self.groups.contains_key(group_id) {
            StoreView {
                groups: self.groups.insert(group_id, self.groups[group_id].renamed(name, description)),
                ..self
            }
        } else {
            self
        }
    }

    /// The state with `suggestion` under its identifier.
    pub open spec fn with_suggestion(self, suggestion: TagSuggestionView) -> StoreView {
        StoreView { tag_suggestions: self.tag_suggestions.insert(suggestion.id, suggestion), ..self }
    }

    /// The state with a verdict written into the suggestion under `id`.
    /// Without such a suggestion nothing changes.
    pub open spec fn reviewed(
        self,
        id: Seq<char>,
        status: Seq<char>,
        reviewed_by: Seq<char>,
        reviewed_at: Seq<char>,
    ) -> StoreView {
        if self.tag_suggestions.contains_key(id) {
            StoreView {
                tag_suggestions: self.tag_suggestions.insert(
                    id,
                    self.tag_suggestions[id].reviewed(status, reviewed_by, reviewed_at),
                ),
                ..self
            }
        } else {
            self
        }
    }

    /// The state with `tag` under its identifier.
    pub open spec fn with_approved_tag(self, tag: ApprovedTagView) -> StoreView {
        StoreView { approved_tags: self.approved_tags.insert(tag.id, tag), ..self }
    }

    /// The state after the approved tag under `id` is deleted: the tag is
    /// gone, and with it the upvotes that name it. Without such a tag
    /// nothing changes.
    pub open spec fn without_approved_tag(self, id: Seq<char>) -> StoreView {
        if self.approved_tags.contains_key(id) {
            StoreView {
                approved_tags: self.approved_tags.remove(id),
                tag_upvotes: kept(self.tag_upvotes, |u: TagUpvoteView| u.tag_id != id),
                ..self
            }
        } else {
            self
        }
    }

    /// Whether `user_id` has an upvote on the tag `tag_id`.
    pub open spec fn has_upvote(self, tag_id: Seq<char>, user_id: Seq<char>) -> bool {
        exists|k: Seq<char>|
            self.tag_upvotes.contains_key(k) && (#[trigger] self.tag_upvotes[k]).is_of(tag_id, user_id)
    }

    /// The state with `upvote` under its identifier, and one upvote more
    /// counted on the tag that it names, if the store holds that tag.
    pub open spec fn with_upvote(self, upvote: TagUpvoteView) -> StoreView {
        StoreView {
            tag_upvotes: self.tag_upvotes.insert(upvote.id, upvote),
            approved_tags: if self.approved_tags.contains_key(upvote.tag_id) {
                self.approved_tags.insert(upvote.tag_id, self.approved_tags[upvote.tag_id].upvoted())
            } else {
                self.approved_tags
            },
            ..self
        }
    }

    /// The state without any upvote of `user_id` on the tag `tag_id`, and
    /// one upvote less counted on that tag, if the store holds it.
    pub open spec fn without_upvote(self, tag_id: Seq<char>, user_id: Seq<char>) -> StoreView {
        StoreView {
            tag_upvotes: kept(self.tag_upvotes, |u: TagUpvoteView| !u.is_of(tag_id, user_id)),
            approved_tags: if self.approved_tags.contains_key(tag_id) {
                self.approved_tags.insert(tag_id, self.approved_tags[tag_id].downvoted())
            } else {
                self.approved_tags
            },
            ..self
        }
    }

    /// The state after `user_id` toggles the upvote on the tag `tag_id`: an
    /// upvote that the user has is withdrawn; where the user has none,
    /// `fresh` is recorded.
    pub open spec fn toggled(self, tag_id: Seq<char>, user_id: Seq<char>, fresh: TagUpvoteView) -> StoreView {
        if self.has_upvote(tag_id, user_id) {
            self.without_upvote(tag_id, user_id)
        } else {
            self.with_upvote(fresh)
        }
    }

    /// The state after an attempt to load a snapshot that found `found`:
    /// what the snapshot holds, or the state as it was where none was read.
    pub open spec fn loaded(self, found: Option<StoreView>) -> StoreView {
        match found {
            Some(snapshot) => snapshot,
            None => self,
        }
    }
}

/// A snapshot of a store: the five collections as one document.
pub struct AppData {
    pub groups: Table<Group>,
    pub images: Table<Image>,
    pub tag_suggestions: Table<TagSuggestion>,
    pub approved_tags: Table<ApprovedTag>,
    pub tag_upvotes: Table<TagUpvote>,
}

impl View for AppData {
    type V = StoreView;

    open spec fn view(&self) -> StoreView {
        StoreView {
            groups: views(self.groups@),
            images: views(self.images@),
            tag_suggestions: views(self.tag_suggestions@),
            approved_tags: views(self.approved_tags@),
            tag_upvotes: views(self.tag_upvotes@),
        }
    }
}

impl Default for AppData {
    /// The snapshot of a store without any record.
    fn default() -> (data: Self)
        ensures
            data@ == StoreView::empty(),
    {
        let data = AppData {
            groups: Table::new(),
            images: Table::new(),
            tag_suggestions: Table::new(),
            approved_tags: Table::new(),
            tag_upvotes: Table::new(),
        };
        proof {
            assert(data@.groups =~= Map::empty());
            assert(data@.images =~= Map::empty());
            assert(data@.tag_suggestions =~= Map::empty());
            assert(data@.approved_tags =~= Map::empty());
            assert(data@.tag_upvotes =~= Map::empty());
        }
        data
    }
}

/// What an attempt to read a stored snapshot gave.
pub enum SnapshotRead {
    /// There is no stored snapshot.
    Missing,
    /// There is one, and it cannot be understood.
    Malformed,
    /// There is one, and this is what it holds.
    Parsed(AppData),
}

impl SnapshotRead {
    /// The state that the snapshot holds, where one was read.
    pub open spec fn found(self) -> Option<StoreView> {
        match self {
            SnapshotRead::Parsed(data) => Some(data@),
            _ => None,
        }
    }
}

/// The store. Each collection is open to its users, as a table under the
/// records' identifiers.
pub struct DataService {
    pub groups: Table<Group>,
    pub images: Table<Image>,
    pub tag_suggestions: Table<TagSuggestion>,
    pub approved_tags: Table<ApprovedTag>,
    pub tag_upvotes: Table<TagUpvote>,
}

impl View for DataService {
    type V = StoreView;

    open spec fn view(&self) -> StoreView {
        StoreView {
            groups: views(self.groups@),
            images: views(self.images@),
            tag_suggestions: views(self.tag_suggestions@),
            approved_tags: views(self.approved_tags@),
            tag_upvotes: views(self.tag_upvotes@),
        }
    }
}

impl DataService {
    /// A store without any record.
    pub fn new() -> (store: Self)
        ensures
            store@ == StoreView::empty(),
    {
        let store = DataService {
            groups: Table::new(),
            images: Table::new(),
            tag_suggestions: Table::new(),
            approved_tags: Table::new(),
            tag_upvotes: Table::new(),
        };
        proof {
            assert(store@.groups =~= Map::empty());
            assert(store@.images =~= Map::empty());
            assert(store@.tag_suggestions =~= Map::empty());
            assert(store@.approved_tags =~= Map::empty());
            assert(store@.tag_upvotes =~= Map::empty());
        }
        store
    }

    /// Puts `group` into the store under its identifier and hands the
    /// identifier back. A group that stood there gives way.
    pub fn create_group(&mut self, group: Group) -> (id: String)
        ensures
            id@ == group@.id,
            final(self)@ == old(self)@.with_group(group@.id, group@),
    {
        let id = group.id.clone();
        self.groups.insert(id.clone(), group);
        proof {
            assert(self@.groups =~= old(self)@.groups.insert(group@.id, group@));
        }
        id
    }

    /// The group under `id`, if there is one.
    pub fn get_group(&self, id: &str) -> (found: Option<&Group>)
        ensures
            match found {
                Some(group) => self@.groups.contains_key(id@) && group@ == self@.groups[id@],
                None => !self@.groups.contains_key(id@),
            },
    {
        self.groups.get(id)
    }

    /// The group under `id`, to be changed in place. What the caller leaves
    /// behind the reference is the group's new state; nothing else changes.
    pub fn get_group_mut(&mut self, id: &str) -> (found: Option<&mut Group>)
        ensures
            match found {
                Some(group) => old(self)@.groups.contains_key(id@) && group@ == old(self)@.groups[id@]
                    && final(self)@ == old(self)@.with_group(id@, final(group)@),
                None => !old(self)@.groups.contains_key(id@) && final(self)@ == old(self)@,
            },
    {
        match self.groups.get_mut(id) {
            Some(group) => {
                proof {
                    assert(views(old(self).groups@.insert(id@, *final(group))) =~= old(self)@.groups.insert(
                        id@,
                        final(group)@,
                    ));
                }
                Some(group)
            },
            None => None,
        }
    }

    /// Every group, once.
    pub fn get_all_groups(&self) -> (all: Vec<&Group>)
        ensures
            lists(seen(all@), self@.groups),
            all@.len() == self@.groups.len(),
    {
        let all = self.groups.values();
        proof {
            lemma_lists_map_values(targets(all@), self.groups@, view_of::<Group>());
            lemma_lists_len(seen(all@), self@.groups);
        }
        all
    }

    /// Deletes the group under `id` with all that hangs on it, and says
    /// whether there was such a group.
    pub fn delete_group(&mut self, id: &str) -> (deleted: bool)
        ensures
            deleted == old(self)@.groups.contains_key(id@),
            final(self)@ == old(self)@.without_group(id@),
    {
        if self.groups.remove(id).is_some() {
            let gone = self.images.remove_where(&InGroup { group_id: id });
            self.tag_suggestions.remove_where(&OfImages { image_ids: &gone });
            self.approved_tags.remove_where(&OfImages { image_ids: &gone });
            proof {
                let before = old(self)@;
                let after = before.without_group(id@);
                assert(texts(gone@).to_set() =~= before.images_in_group(id@));
                assert forall|k: Seq<char>| texts(gone@).contains(k) <==> before.images_in_group(id@).contains(
                    k,
                ) by {
                    assert(texts(gone@).contains(k) <==> texts(gone@).to_set().contains(k));
                }
                assert(self@.groups =~= after.groups);
                assert(self@.images =~= after.images);
                assert(self@.tag_suggestions =~= after.tag_suggestions);
                assert(self@.approved_tags =~= after.approved_tags);
            }
            true
        } else {
            proof {
                assert(self@.groups =~= old(self)@.groups);
            }
            false
        }
    }

    /// Puts `image` into the store under its identifier and hands the
    /// identifier back. Whether the image's group exists is not looked at.
    pub fn create_image(&mut self, image: Image) -> (id: String)
        ensures
            id@ == image@.id,
            final(self)@ == old(self)@.with_image(image@.id, image@),
    {
        let id = image.id.clone();
        self.images.insert(id.clone(), image);
        proof {
            assert(self@.images =~= old(self)@.images.insert(image@.id, image@));
        }
        id
    }

    /// The image under `id`, if there is one.
    pub fn get_image(&self, id: &str) -> (found: Option<&Image>)
        ensures
            match found {
                Some(image) => self@.images.contains_key(id@) && image@ == self@.images[id@],
                None => !self@.images.contains_key(id@),
            },
    {
        self.images.get(id)
    }

    /// The images that `username` may see, each once: those of the groups
    /// that have the user as a member.
    pub fn get_user_images(&self, username: &str) -> (visible: Vec<&Image>)
        ensures
            lists(seen(visible@), self@.images_of_user(username@)),
            visible@.len() == self@.images_of_user(username@).len(),
    {
        let member_of = self.groups.select(&HasMember { username });
        let mut group_ids: Vec<String> = Vec::new();
        let mut i: usize = 0;
        while i < member_of.len()
            invariant
                i <= member_of@.len(),
                group_ids@.len() == i,
                forall|j: int| 0 <= j < i ==> group_ids@[j]@ == (#[trigger] member_of@[j])@.id,
            decreases member_of@.len() - i,
        {
            group_ids.push(member_of[i].id.clone());
            i += 1;
        }
        let test = InGroups { group_ids: &group_ids };
        let visible = self.images.select(&test);
        proof {
            let has_member = HasMember { username };
            let found = kept(self.images@, passing(test));
            lemma_lists_values(targets(member_of@), kept(self.groups@, passing(has_member)));
            assert forall|group_id: Seq<char>| texts(group_ids@).contains(group_id) <==> self@.groups_of_user(
                username@,
            ).contains(group_id) by {
                if texts(group_ids@).contains(group_id) {
                    let j: int = texts(group_ids@).index_of(group_id);
                    let group = targets(member_of@)[j];
                    assert(targets(member_of@).contains(group));
                    let k = choose|k: Seq<char>|
                        kept(self.groups@, passing(has_member)).contains_key(k) && kept(
                            self.groups@,
                            passing(has_member),
                        )[k] == group;
                    assert(self@.groups.contains_key(k) && self@.groups[k].id == group_id);
                }
                if self@.groups_of_user(username@).contains(group_id) {
                    let k = choose|k: Seq<char>|
                        self@.groups.contains_key(k) && (#[trigger] self@.groups[k]).id == group_id
                            && self@.groups[k].members.contains(username@);
                    let group = self.groups@[k];
                    assert(kept(self.groups@, passing(has_member)).contains_key(k));
                    assert(kept(self.groups@, passing(has_member)).contains_value(group));
                    assert(targets(member_of@).contains(group));
                    let j: int = targets(member_of@).index_of(group);
                    assert(texts(group_ids@)[j] == group_id);
                }
            }
            lemma_lists_map_values(targets(visible@), found, view_of::<Image>());
            assert(views(found) =~= self@.images_of_user(username@));
            lemma_lists_len(seen(visible@), self@.images_of_user(username@));
        }
        visible
    }

    /// Deletes the image under `id` with the suggestions and approved tags
    /// that name it, and says whether there was such an image.
    pub fn delete_image(&mut self, id: &str) -> (deleted: bool)
        ensures
            deleted == old(self)@.images.contains_key(id@),
            final(self)@ == old(self)@.without_image(id@),
    {
        if self.images.remove(id).is_some() {
            let test = OfImage { image_id: id };
            self.tag_suggestions.remove_where(&test);
            self.approved_tags.remove_where(&test);
            proof {
                let after = old(self)@.without_image(id@);
                assert(self@.images =~= after.images);
                assert(self@.tag_suggestions =~= after.tag_suggestions);
                assert(self@.approved_tags =~= after.approved_tags);
            }
            true
        } else {
            proof {
                assert(self@.images =~= old(self)@.images);
            }
            false
        }
    }

    /// Puts `suggestion` into the store under its identifier and hands the
    /// identifier back.
    pub fn add_tag_suggestion(&mut self, suggestion: TagSuggestion) -> (id: String)
        ensures
            id@ == suggestion@.id,
            final(self)@ == old(self)@.with_suggestion(suggestion@),
    {
        let id = suggestion.id.clone();
        self.tag_suggestions.insert(id.clone(), suggestion);
        proof {
            assert(self@.tag_suggestions =~= old(self)@.tag_suggestions.insert(suggestion@.id, suggestion@));
        }
        id
    }

    /// Writes a verdict into the suggestion under `id`, whatever its
    /// status was, and hands back the image and the tag text that the
    /// suggestion names. Without such a suggestion nothing changes and
    /// nothing is handed back.
    pub fn record_review(&mut self, id: &str, status: String, reviewed_by: String, reviewed_at: String) -> (named:
        Option<(String, String)>)
        ensures
            final(self)@ == old(self)@.reviewed(id@, status@, reviewed_by@, reviewed_at@),
            match named {
                Some((image_id, tag)) => old(self)@.tag_suggestions.contains_key(id@) && image_id@ == old(
                    self,
                )@.tag_suggestions[id@].image_id && tag@ == old(self)@.tag_suggestions[id@].tag,
                None => !old(self)@.tag_suggestions.contains_key(id@),
            },
    {
        match self.tag_suggestions.get_mut(id) {
            Some(suggestion) => {
                let image_id = suggestion.image_id.clone();
                let tag = suggestion.tag.clone();
                suggestion.status = status;
                suggestion.reviewed_by = Some(reviewed_by);
                suggestion.reviewed_at = Some(reviewed_at);
                proof {
                    assert(self@.tag_suggestions =~= old(self)@.reviewed(
                        id@,
                        status@,
                        reviewed_by@,
                        reviewed_at@,
                    ).tag_suggestions);
                }
                Some((image_id, tag))
            },
            None => None,
        }
    }

    /// Puts `tag` into the store under its identifier and hands the
    /// identifier back.
    pub fn add_approved_tag(&mut self, tag: ApprovedTag) -> (id: String)
        ensures
            id@ == tag@.id,
            final(self)@ == old(self)@.with_approved_tag(tag@),
    {
        let id = tag.id.clone();
        self.approved_tags.insert(id.clone(), tag);
        proof {
            assert(self@.approved_tags =~= old(self)@.approved_tags.insert(tag@.id, tag@));
        }
        id
    }

    /// Deletes the approved tag under `id` with the upvotes that name it,
    /// and says whether there was such a tag.
    pub fn delete_approved_tag(&mut self, id: &str) -> (deleted: bool)
        ensures
            deleted == old(self)@.approved_tags.contains_key(id@),
            final(self)@ == old(self)@.without_approved_tag(id@),
    {
        if self.approved_tags.remove(id).is_some() {
            self.tag_upvotes.remove_where(&OfTag { tag_id: id });
            proof {
                let after = old(self)@.without_approved_tag(id@);
                assert(self@.approved_tags =~= after.approved_tags);
                assert(self@.tag_upvotes =~= after.tag_upvotes);
            }
            true
        } else {
            proof {
                assert(self@.approved_tags =~= old(self)@.approved_tags);
            }
            false
        }
    }

    /// Whether `user_id` has an upvote on the tag `tag_id`.
    pub fn has_upvote(&self, tag_id: &str, user_id: &str) -> (found: bool)
        ensures
            found == self@.has_upvote(tag_id@, user_id@),
    {
        let found = self.tag_upvotes.any(&UpvoteOf { tag_id, user_id });
        proof {
            if found {
                let k = choose|k: Seq<char>|
                    self.tag_upvotes@.contains_key(k) && (#[trigger] self.tag_upvotes@[k])@.is_of(
                        tag_id@,
                        user_id@,
                    );
                assert(self@.tag_upvotes.contains_key(k) && self@.tag_upvotes[k].is_of(tag_id@, user_id@));
            }
            if self@.has_upvote(tag_id@, user_id@) {
                let k = choose|k: Seq<char>|
                    self@.tag_upvotes.contains_key(k) && (#[trigger] self@.tag_upvotes[k]).is_of(
                        tag_id@,
                        user_id@,
                    );
                assert(self.tag_upvotes@.contains_key(k) && self.tag_upvotes@[k]@.is_of(tag_id@, user_id@));
            }
        }
        found
    }

    /// Puts `upvote` into the store under its identifier, counts it on the
    /// approved tag that it names, if the store holds that tag, and hands
    /// the upvote's identifier back.
    pub fn add_upvote(&mut self, upvote: TagUpvote) -> (id: String)
        requires
            old(self)@.approved_tags.contains_key(upvote@.tag_id) ==> old(self)@.approved_tags[upvote@.tag_id].upvotes
                < i32::MAX,
        ensures
            id@ == upvote@.id,
            final(self)@ == old(self)@.with_upvote(upvote@),
    {
        let id = upvote.id.clone();
        let tag_id = upvote.tag_id.clone();
        self.tag_upvotes.insert(id.clone(), upvote);
        match self.approved_tags.get_mut(tag_id.as_str()) {
            Some(tag) => {
                tag.upvotes = tag.upvotes + 1;
            },
            None => {},
        }
        proof {
            let after = old(self)@.with_upvote(upvote@);
            assert(self@.tag_upvotes =~= after.tag_upvotes);
            assert(self@.approved_tags =~= after.approved_tags);
        }
        id
    }

    /// Takes out every upvote of `user_id` on the tag `tag_id`, and counts
    /// one upvote less on that tag, if the store holds it; the count does
    /// not go below zero.
    pub fn remove_upvote(&mut self, tag_id: &str, user_id: &str)
        ensures
            final(self)@ == old(self)@.without_upvote(tag_id@, user_id@),
    {
        self.tag_upvotes.remove_where(&UpvoteOf { tag_id, user_id });
        match self.approved_tags.get_mut(tag_id) {
            Some(tag) => {
                tag.upvotes = if tag.upvotes > 0 {
                    tag.upvotes - 1
                } else {
                    0
                };
            },
            None => {},
        }
        proof {
            let after = old(self)@.without_upvote(tag_id@, user_id@);
            assert(self@.tag_upvotes =~= after.tag_upvotes);
            assert(self@.approved_tags =~= after.approved_tags);
        }
    }

    /// A snapshot of the store: a copy of every record, under its key.
    pub fn snapshot(&self) -> (data: AppData)
        ensures
            data@ == self@,
    {
        let data = AppData {
            groups: self.groups.clone(),
            images: self.images.clone(),
            tag_suggestions: self.tag_suggestions.clone(),
            approved_tags: self.approved_tags.clone(),
            tag_upvotes: self.tag_upvotes.clone(),
        };
        proof {
            assert(data@.groups =~= self@.groups);
            assert(data@.images =~= self@.images);
            assert(data@.tag_suggestions =~= self@.tag_suggestions);
            assert(data@.approved_tags =~= self@.approved_tags);
            assert(data@.tag_upvotes =~= self@.tag_upvotes);
        }
        data
    }

    /// Takes over what reading the stored snapshot gave. A snapshot that
    /// was read replaces all five collections at once. Where there is none
    /// the store stays as it is, which is no failure. Where there is one
    /// that cannot be understood the store stays as it is too, and the
    /// load fails.
    pub fn load_snapshot(&mut self, read: SnapshotRead) -> (done: Result<(), StoreError>)
        ensures
            final(self)@ == old(self)@.loaded(read.found()),
            done == (if read is Malformed {
                Err::<(), StoreError>(StoreError::PersistenceFailure)
            } else {
                Ok::<(), StoreError>(())
            }),
    {
        match read {
            SnapshotRead::Missing => Ok(()),
            SnapshotRead::Malformed => Err(StoreError::PersistenceFailure),
            SnapshotRead::Parsed(data) => {
                self.groups = data.groups;
                self.images = data.images;
                self.tag_suggestions = data.tag_suggestions;
                self.approved_tags = data.approved_tags;
                self.tag_upvotes = data.tag_upvotes;
                Ok(())
            },
        }
    }

    /// The five collections as they stand, to be read and written out.
    pub fn export_annotations(&self) -> (export: AnnotationsExport<'_>)
        ensures
            export@ == self@,
    {
        AnnotationsExport {
            groups: &self.groups,
            images: &self.images,
            tag_suggestions: &self.tag_suggestions,
            approved_tags: &self.approved_tags,
            tag_upvotes: &self.tag_upvotes,
        }
    }
}

} // verus!
