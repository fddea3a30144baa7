//! What an upload has to pass before the store records its image.

use vstd::prelude::*;
use vstd::string::StringExecFns;
use crate::models::{Image, ImageView};
use crate::outside::{is_id_text, lowercase_of, now_millis, to_lowercase};
use crate::services::DataService;
use crate::text::{
    after_last_dot, contains_text, decimal_i64, decimal_text, join, joined, last_segment, texts,
    underscore_spaces, underscored,
};

verus! {

/// Why an upload is turned away.
#[derive(Debug, Clone, Copy, PartialEq, Eq, Structural)]
pub enum UploadError {
    /// The file name, the group or the uploader is missing.
    MissingFields,
    /// The file name does not end in a supported extension.
    UnsupportedType,
}

/// The extensions of the image formats that uploads may have.
pub open spec fn supported_extensions() -> Seq<Seq<char>> {
    seq!["jpg"@, "jpeg"@, "png"@, "gif"@, "webp"@, "jfif"@, "bmp"@, "tiff"@]
}

/// The extensions of the image formats that uploads may have.
pub fn supported_extension_list() -> (list: Vec<String>)
    ensures
        texts(list@) == supported_extensions(),
{
    let mut list: Vec<String> = Vec::new();
    list.push("jpg".to_owned());
    list.push("jpeg".to_owned());
    list.push("png".to_owned());
    list.push("gif".to_owned());
    list.push("webp".to_owned());
    list.push("jfif".to_owned());
    list.push("bmp".to_owned());
    list.push("tiff".to_owned());
    assert(texts(list@) =~= supported_extensions());
    list
}

/// Whether `extension` is one of the supported ones, letter for letter.
pub fn is_supported_extension(extension: &str) -> (supported: bool)
    ensures
        supported == supported_extensions().contains(extension@),
{
    let list = supported_extension_list();
    contains_text(&list, extension)
}

/// The extension of a file name: what stands behind its last full stop, in
/// lower case. A name without a full stop is its own extension.
pub fn file_extension(filename: &str) -> (extension: String)
    ensures
        extension@ == lowercase_of(after_last_dot(filename@)),
{
    to_lowercase(last_segment(filename))
}

/// Whether an upload with this stored file name, group and uploader may go
/// on, and if not, why.
pub open spec fn upload_verdict(filename: Seq<char>, group_id: Seq<char>, uploaded_by: Seq<char>) -> Result<
    (),
    UploadError,
> {
    if filename.len() == 0 || group_id.len() == 0 || uploaded_by.len() == 0 {
        Err(UploadError::MissingFields)
    } else if !supported_extensions().contains(lowercase_of(after_last_dot(filename))) {
        Err(UploadError::UnsupportedType)
    } else {
        Ok(())
    }
}

/// Checks an upload before its bytes are stored: none of the three texts
/// may be empty, and the file name has to end in a supported extension.
pub fn check_upload(filename: &str, group_id: &str, uploaded_by: &str) -> (verdict: Result<(), UploadError>)
    ensures
        verdict == upload_verdict(filename@, group_id@, uploaded_by@),
{
    if filename.is_empty() || group_id.is_empty() || uploaded_by.is_empty() {
        return Err(UploadError::MissingFields);
    }
    let extension = file_extension(filename);
    if !is_supported_extension(extension.as_str()) {
        return Err(UploadError::UnsupportedType);
    }
    Ok(())
}

/// The name under which an upload's bytes are stored: the time of the
/// upload in milliseconds, an underscore, and the file's own name with an
/// underscore for every space.
pub open spec fn stored_name(millis: int, original_name: Seq<char>) -> Seq<char> {
    decimal_text(millis) + seq!['_'] + underscored(original_name)
}

/// Writes the name under which an upload of `millis` is stored.
pub fn stored_filename(millis: i64, original_name: &str) -> (filename: String)
    ensures
        filename@ == stored_name(millis as int, original_name@),
{
    proof {
        reveal_strlit("_");
    }
    let mut filename = decimal_i64(millis);
    filename.append("_");
    filename.append(underscore_spaces(original_name).as_str());
    assert(filename@ =~= stored_name(millis as int, original_name@));
    filename
}

/// Writes the name under which an upload that comes in now is stored.
pub fn fresh_filename(original_name: &str) -> (filename: String)
    ensures
        exists|millis: int| i64::MIN <= millis <= i64::MAX && filename@ == stored_name(millis, original_name@),
{
    let millis = now_millis();
    let filename = stored_filename(millis, original_name);
    assert(filename@ == stored_name(millis as int, original_name@));
    filename
}

/// Records the image of an upload that passes [`check_upload`], under a
/// fresh identifier, and hands the identifier back. Whether the group
/// exists is not looked at. An upload that does not pass is turned away and
/// nothing changes.
pub fn upload_image(
    data: &mut DataService,
    filename: String,
    original_name: String,
    group_id: String,
    uploaded_by: String,
) -> (recorded: Result<String, UploadError>)
    ensures
        ({
            let verdict = upload_verdict(filename@, group_id@, uploaded_by@);
            let after = final(data)@;
            match recorded {
                Ok(id) => verdict is Ok && is_id_text(id@) && after.images.contains_key(id@) && after == old(
                    data,
                )@.with_image(
                    id@,
                    ImageView {
                        id: id@,
                        filename: filename@,
                        original_name: original_name@,
                        group_id: group_id@,
                        uploaded_at: after.images[id@].uploaded_at,
                        uploaded_by: uploaded_by@,
                    },
                ),
                Err(e) => verdict == Err::<(), UploadError>(e) && after == old(data)@,
            }
        }),
{
    match check_upload(filename.as_str(), group_id.as_str(), uploaded_by.as_str()) {
        Err(e) => Err(e),
        Ok(_) => {
            let image = Image::new(filename, original_name, group_id, uploaded_by);
            Ok(data.create_image(image))
        },
    }
}

impl UploadError {
    /// The failure in words, as the one who uploads is told.
    pub open spec fn words(self) -> Seq<char> {
        match self {
            UploadError::MissingFields => "Missing required fields"@,
            UploadError::UnsupportedType => "Unsupported file type. Supported formats: "@ + joined(
                supported_extensions(),
                ", "@,
            ),
        }
    }

    /// Writes the failure in words.
    pub fn message(&self) -> (text: String)
        ensures
            text@ == self.words(),
    {
        match self {
            UploadError::MissingFields => "Missing required fields".to_owned(),
            UploadError::UnsupportedType => {
                let mut text = "Unsupported file type. Supported formats: ".to_owned();
                text.append(join(&supported_extension_list(), ", ").as_str());
                text
            },
        }
    }
}

} // verus!
