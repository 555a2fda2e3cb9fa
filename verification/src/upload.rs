//! Turning an upload form into a queued conversion job.

use vstd::prelude::*;

use crate::config::Config;
use crate::decimal::{decimal_digits, decimal_text};
use crate::paths::{processed_output_path, processed_output_text, upload_input_path, upload_input_text};

verus! {

/// The bits of the `f64` speed factor 2.0, the speed used when the form
/// gives none that can be read.
pub const DEFAULT_SPEED_BITS: u64 = 0x4000_0000_0000_0000u64;

/// What the upload handler does with a form field, by its name.
#[derive(Debug, Clone, Copy, PartialEq, Eq, Structural)]
pub enum FieldRole {
    Video,
    Speed,
    Ignored,
}

/// The role of the field named `name`.
pub open spec fn field_role_of(name: Seq<char>) -> FieldRole {
    if name == "video"@ {
        FieldRole::Video
    } else if name == "speed"@ {
        FieldRole::Speed
    } else {
        FieldRole::Ignored
    }
}

/// `video` carries the file, `speed` the speed factor; other fields are
/// skipped.
pub fn field_role(name: &str) -> (res: FieldRole)
    ensures
        res == field_role_of(name@),
{
    let name = name.to_owned();
    if name == "video".to_owned() {
        FieldRole::Video
    } else if name == "speed".to_owned() {
        FieldRole::Speed
    } else {
        FieldRole::Ignored
    }
}

/// What an upload form has given so far.
pub struct UploadForm {
    pub video: Option<Vec<u8>>,
    pub original_filename: String,
    pub speed_bits: u64,
}

impl UploadForm {
    /// A form before any field: no video, no file name, the default speed.
    pub fn new() -> (res: UploadForm)
        ensures
            res.video is None,
            res.original_filename@ == Seq::<char>::empty(),
            res.speed_bits == DEFAULT_SPEED_BITS,
    {
        UploadForm { video: None, original_filename: String::new(), speed_bits: DEFAULT_SPEED_BITS }
    }

    /// Takes in a `video` field: its bytes and the name of the uploaded
    /// file, `video.mp4` where the field has none. A later video field
    /// replaces an earlier one.
    pub fn set_video(&mut self, file_name: Option<&str>, data: Vec<u8>)
        ensures
            final(self).video == Some(data),
            final(self).original_filename@ == match file_name {
                Some(n) => n@,
                None => "video.mp4"@,
            },
            final(self).speed_bits == old(self).speed_bits,
    {
        self.original_filename = match file_name {
            Some(n) => n.to_owned(),
            None => "video.mp4".to_owned(),
        };
        self.video = Some(data);
    }
}

/// Why an upload is refused.
#[derive(Debug, Clone, Copy, PartialEq, Eq, Structural)]
pub enum UploadError {
    /// The form had no `video` field.
    NoVideo,
    /// The video is larger than the configured limit of `max_mb` mebibytes.
    TooLarge { max_mb: u64 },
}

/// The message sent back for a refused upload.
pub open spec fn upload_error_text(e: UploadError) -> Seq<char> {
    match e {
        UploadError::NoVideo => "No video file received"@,
        UploadError::TooLarge { max_mb } => "File too large (max "@ + decimal_digits(max_mb as nat) + "MB)"@,
    }
}

impl UploadError {
    /// The error message of this refusal.
    pub fn message(&self) -> (res: String)
        ensures
            res@ == upload_error_text(*self),
    {
        match self {
            UploadError::NoVideo => "No video file received".to_owned(),
            UploadError::TooLarge { max_mb } => {
                let mut text = "File too large (max ".to_owned();
                let digits = decimal_text(*max_mb);
                text.append(digits.as_str());
                text.append("MB)");
                text
            },
        }
    }
}

/// Whether `c` is a lower-case hexadecimal digit.
pub open spec fn is_lower_hex(c: char) -> bool {
    ('0' <= c && c <= '9') || ('a' <= c && c <= 'f')
}

/// The text of a random (version 4) UUID in its hyphenated lower-case
/// form, such as `67e55044-10b1-426f-9247-bb680e5fe0c8`.
pub open spec fn is_v4_uuid_text(s: Seq<char>) -> bool {
    &&& s.len() == 36
    &&& forall|i: int| 0 <= i < 36 ==> if i == 8 || i == 13 || i == 18 || i == 23 {
        s[i] == '-'
    } else {
        is_lower_hex(#[trigger] s[i])
    }
    &&& s[14] == '4'
    &&& (s[19] == '8' || s[19] == '9' || s[19] == 'a' || s[19] == 'b')
}

/// Calls `uuid::Uuid::new_v4` and prints the result with `to_string`: a
/// random identifier. Every outcome has the version 4 layout, as the uuid
/// crate's source sets the version and variant bits and prints the
/// hyphenated lower-case form; which identifier comes out is chance.
#[verifier::external_body]
fn new_job_id() -> (res: String)
    ensures
        is_v4_uuid_text(res@),
{
    uuid::Uuid::new_v4().to_string()
}

/// A job identifier is a plain file name: it holds neither a path separator
/// nor a dot, so the files named after it stay in their directories.
pub proof fn lemma_job_id_is_plain_name(id: Seq<char>)
    requires
        is_v4_uuid_text(id),
    ensures
        !id.contains('/'),
        !id.contains('.'),
{
    assert forall|i: int| 0 <= i < id.len() implies id[i] != '/' && id[i] != '.' by {
        if i == 8 || i == 13 || i == 18 || i == 23 {
        } else {
            assert(is_lower_hex(id[i]));
        }
    }
}

/// An accepted upload: its new job id, where its video is stored and where
/// the processed video goes, and what the form gave.
pub struct PreparedUpload {
    pub job_id: String,
    pub input_path: String,
    pub output_path: String,
    pub data: Vec<u8>,
    pub original_filename: String,
    pub speed_bits: u64,
}

/// The upload limit in bytes: the configured mebibytes times 1024 * 1024.
pub open spec fn upload_limit(config: Config) -> int {
    config.max_file_size_mb * 1048576
}

/// What `prepare_upload` promises of its result.
pub open spec fn prepare_upload_outcome(form: UploadForm, config: Config, res: Result<PreparedUpload, UploadError>) -> bool {
    &&& res == Err::<PreparedUpload, UploadError>(UploadError::NoVideo) <==> form.video is None
    &&& res == Err::<PreparedUpload, UploadError>(UploadError::TooLarge { max_mb: config.max_file_size_mb })
        <==> (form.video matches Some(d) && d@.len() > upload_limit(config))
    &&& res is Ok <==> (form.video matches Some(d) && d@.len() <= upload_limit(config))
}

/// Accepts an upload form or says why not: a form without a video is
/// refused, so is a video larger than the configured limit; otherwise the
/// upload gets a fresh random job id and the paths named after it in the
/// upload and output directories.
pub fn prepare_upload(form: UploadForm, config: &Config) -> (res: Result<PreparedUpload, UploadError>)
    requires
        upload_limit(*config) <= u64::MAX,
    ensures
        prepare_upload_outcome(form, *config, res),
        res == Err::<PreparedUpload, UploadError>(UploadError::NoVideo) <==> form.video is None,
        res == Err::<PreparedUpload, UploadError>(UploadError::TooLarge { max_mb: config.max_file_size_mb })
            <==> (form.video matches Some(d) && d@.len() > upload_limit(*config)),
        res is Ok <==> (form.video matches Some(d) && d@.len() <= upload_limit(*config)),
        res matches Ok(p) ==> {
            &&& form.video == Some(p.data)
            &&& is_v4_uuid_text(p.job_id@)
            &&& p.input_path@ == upload_input_text(config.upload_dir@, p.job_id@)
            &&& p.output_path@ == processed_output_text(config.processed_dir@, p.job_id@)
            &&& p.original_filename == form.original_filename
            &&& p.speed_bits == form.speed_bits
        },
{
    let data = match form.video {
        Some(d) => d,
        None => return Err(UploadError::NoVideo),
    };
    let max_size: u64 = config.max_file_size_mb * 1024 * 1024;
    if data.len() as u64 > max_size {
        return Err(UploadError::TooLarge { max_mb: config.max_file_size_mb });
    }
    let job_id = new_job_id();
    let input_path = upload_input_path(config.upload_dir.as_str(), job_id.as_str());
    let output_path = processed_output_path(config.processed_dir.as_str(), job_id.as_str());
    Ok(PreparedUpload {
        job_id,
        input_path,
        output_path,
        data,
        original_filename: form.original_filename,
        speed_bits: form.speed_bits,
    })
}

/// Only the field named exactly `video` carries the file and only the one
/// named exactly `speed` the speed; every other field is skipped.
pub proof fn lemma_field_roles(name: Seq<char>)
    ensures
        field_role_of(name) == FieldRole::Video <==> name == "video"@,
        field_role_of(name) == FieldRole::Speed <==> name == "speed"@,
        field_role_of(name) == FieldRole::Ignored <==> (name != "video"@ && name != "speed"@),
{
    reveal_strlit("video");
    reveal_strlit("speed");
    assert("video"@[0] != "speed"@[0]);
}

/// The byte limit of an upload follows the setting: it is the configured
/// mebibytes times 1 048 576, so one more mebibyte in the setting admits
/// exactly 1 048 576 more bytes, and a video is accepted exactly when it is
/// no longer than that.
pub proof fn lemma_upload_limit_follows_setting(config: Config, more: Config, len: int)
    requires
        more.max_file_size_mb == config.max_file_size_mb + 1,
    ensures
        upload_limit(config) == config.max_file_size_mb * 1048576,
        upload_limit(more) == upload_limit(config) + 1048576,
        len <= upload_limit(config) <==> len <= config.max_file_size_mb * 1024 * 1024,
{
}

/// An upload is accepted exactly when it has a video of at most the
/// configured mebibytes times 1 048 576 bytes; a larger one is refused as
/// too large, with the configured size in the refusal.
pub proof fn lemma_upload_acceptance(form: UploadForm, config: Config, res: Result<PreparedUpload, UploadError>)
    requires
        upload_limit(config) <= u64::MAX,
        prepare_upload_outcome(form, config, res),
    ensures
        res is Ok <==> (form.video matches Some(d) && d@.len() <= config.max_file_size_mb * 1048576),
        (form.video matches Some(d) && d@.len() > config.max_file_size_mb * 1048576)
            ==> res == Err::<PreparedUpload, UploadError>(UploadError::TooLarge { max_mb: config.max_file_size_mb }),
{
}

} // verus!
