//! Uploaded images.

use vstd::prelude::*;
use crate::outside::{is_id_text, new_id, now_rfc3339};

verus! {

/// An image that a user uploaded into a group.
#[derive(Debug)]
pub struct Image {
    pub id: String,
    pub filename: String,
    pub original_name: String,
    pub group_id: String,
    pub uploaded_at: String,
    pub uploaded_by: String,
}

/// What an [`Image`] holds, as plain text.
pub struct ImageView {
    pub id: Seq<char>,
    pub filename: Seq<char>,
    pub original_name: Seq<char>,
    pub group_id: Seq<char>,
    pub uploaded_at: Seq<char>,
    pub uploaded_by: Seq<char>,
}

impl View for Image {
    type V = ImageView;

    open spec fn view(&self) -> ImageView {
        ImageView {
            id: self.id@,
            filename: self.filename@,
            original_name: self.original_name@,
            group_id: self.group_id@,
            uploaded_at: self.uploaded_at@,
            uploaded_by: self.uploaded_by@,
        }
    }
}

impl Clone for Image {
    fn clone(&self) -> (copy: Self)
        ensures
            copy@ == self@,
    {
        Image {
            id: self.id.clone(),
            filename: self.filename.clone(),
            original_name: self.original_name.clone(),
            group_id: self.group_id.clone(),
            uploaded_at: self.uploaded_at.clone(),
            uploaded_by: self.uploaded_by.clone(),
        }
    }
}

impl Image {
    /// An image under the given identifier and upload time. Whether
    /// `group_id` names a group is not looked at.
    pub fn with_identity(
        id: String,
        uploaded_at: String,
        filename: String,
        original_name: String,
        group_id: String,
        uploaded_by: String,
    ) -> (image: Self)
        ensures
            image@ == (ImageView {
                id: id@,
                filename: filename@,
                original_name: original_name@,
                group_id: group_id@,
                uploaded_at: uploaded_at@,
                uploaded_by: uploaded_by@,
            }),
    {
        Image { id, filename, original_name, group_id, uploaded_at, uploaded_by }
    }

    /// A new image with a fresh identifier, uploaded now.
    pub fn new(filename: String, original_name: String, group_id: String, uploaded_by: String) -> (image:
        Self)
        ensures
            image@ == (ImageView {
                id: image@.id,
                filename: filename@,
                original_name: original_name@,
                group_id: group_id@,
                uploaded_at: image@.uploaded_at,
                uploaded_by: uploaded_by@,
            }),
            is_id_text(image@.id),
    {
        Image::with_identity(new_id(), now_rfc3339(), filename, original_name, group_id, uploaded_by)
    }
}

} // verus!
