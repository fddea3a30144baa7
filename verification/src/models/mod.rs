//! The records that the store holds, and the requests made about them.

pub mod annotations;
pub mod group;
pub mod image;
pub mod tag;
pub mod user;

pub use annotations::AnnotationsExport;
pub use group::{
    AddUserToGroupRequest, CreateGroupRequest, DeleteGroupRequest, Group, GroupView,
    RemoveUserFromGroupRequest, UpdateGroupRequest,
};
pub use image::{Image, ImageView};
pub use tag::{
    ApprovedTag, ApprovedTagView, ReviewTagRequest, SuggestTagRequest, TagSuggestion,
    TagSuggestionView, TagUpvote, TagUpvoteView, UpvoteTagRequest,
};
pub use user::{LoginRequest, LoginResponse, User, UserInfo, UserView};
