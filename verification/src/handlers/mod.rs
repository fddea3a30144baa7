//! What each kind of request does, on plain values.

pub mod auth_handlers;
pub mod chat_handlers;
pub mod group_handlers;
pub mod image_handlers;
pub mod openai_handlers;
pub mod tag_handlers;

pub use auth_handlers::login;
pub use chat_handlers::{
    chat_response, context_text, group_stat_line, question_text, AnswerSource, ChatContext,
    ChatOutcome, ChatRequest, ChatResponse, GroupStat,
};
pub use group_handlers::{add_user_to_group, create_group, remove_user_from_group, update_group};
pub use image_handlers::{
    check_upload, file_extension, fresh_filename, is_supported_extension, stored_filename,
    upload_image, UploadError,
};
pub use openai_handlers::{
    build_prompt, data_url, image_data_url, key_is_usable, suggestion_answer,
    suggestion_response, SuggestionOutcome, TagSuggestionRequest, TagSuggestionResponse,
};
pub use tag_handlers::{
    delete_approved_tag, get_all_tags, get_approved_tags, get_image_tags, get_tag_upvotes,
    review_tag, suggest_tag, upvote_tag,
};
