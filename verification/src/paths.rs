//! File paths and file names of the videos the tool reads and writes.

use vstd::prelude::*;

verus! {

/// What `Path::parent` gives for the path with this text, as text.
pub uninterp spec fn std_path_parent(path: Seq<char>) -> Option<Seq<char>>;

/// What `Path::file_stem` gives for the path with this text, as text.
pub uninterp spec fn std_path_file_stem(path: Seq<char>) -> Option<Seq<char>>;

/// What `Path::join` gives for these two paths, as text.
pub uninterp spec fn std_path_join(base: Seq<char>, rel: Seq<char>) -> Seq<char>;

/// Calls `std::path::Path::parent`: the path without its final component.
/// The contract names the result; of its value it states only what the
/// documentation says plainly, that the empty path has no parent.
#[verifier::external_body]
pub(crate) fn path_parent(path: &str) -> (res: Option<String>)
    ensures
        match res {
            Some(p) => std_path_parent(path@) == Some(p@),
            None => std_path_parent(path@) is None,
        },
        path@.len() == 0 ==> res is None,
{
    match std::path::Path::new(path).parent() {
        Some(p) => Some(p.to_string_lossy().into_owned()),
        None => None,
    }
}

/// Calls `std::path::Path::file_stem`: the final component without its
/// extension. The contract names the result and states nothing more of it.
#[verifier::external_body]
pub(crate) fn path_file_stem(path: &str) -> (res: Option<String>)
    ensures
        match res {
            Some(s) => std_path_file_stem(path@) == Some(s@),
            None => std_path_file_stem(path@) is None,
        },
{
    match std::path::Path::new(path).file_stem() {
        Some(s) => Some(s.to_string_lossy().into_owned()),
        None => None,
    }
}

/// Calls `std::path::Path::join`: `rel` adjoined to `base`. The contract
/// names the result and states nothing more of it.
#[verifier::external_body]
pub(crate) fn path_join(base: &str, rel: &str) -> (res: String)
    ensures
        res@ == std_path_join(base@, rel@),
{
    std::path::Path::new(base).join(rel).to_string_lossy().into_owned()
}

/// The directory an output goes to by default: the input's parent, or `.`
/// where the input has none.
pub open spec fn parent_or_current(input: Seq<char>) -> Seq<char> {
    match std_path_parent(input) {
        Some(p) => p,
        None => "."@,
    }
}

/// The stem of a path, or the empty text where it has none.
pub open spec fn stem_or_empty(path: Seq<char>) -> Seq<char> {
    match std_path_file_stem(path) {
        Some(s) => s,
        None => Seq::<char>::empty(),
    }
}

/// The name of a sped-up, silent copy of a video with stem `stem`:
/// `<stem>_speed<speed>x_noaudio.mp4`.
pub open spec fn speed_file_name_text(stem: Seq<char>, speed: Seq<char>) -> Seq<char> {
    stem + "_speed"@ + speed + "x_noaudio.mp4"@
}

/// The default output path for `input` at a speed written as `speed`.
pub open spec fn default_output_text(input: Seq<char>, speed: Seq<char>) -> Seq<char> {
    std_path_join(
        parent_or_current(input),
        speed_file_name_text(stem_or_empty(input), speed),
    )
}

/// `<stem>_speed<speed>x_noaudio.mp4`, with `speed` the speed factor as
/// Rust prints it.
pub fn speed_file_name(stem: &str, speed_text: &str) -> (res: String)
    ensures
        res@ == speed_file_name_text(stem@, speed_text@),
{
    let mut name = stem.to_owned();
    name.append("_speed");
    name.append(speed_text);
    name.append("x_noaudio.mp4");
    name
}

/// Where the output goes when none is given: next to the input, named after
/// the input's stem and the speed, in `.` where the input has no parent.
pub fn default_output_path(input: &str, speed_text: &str) -> (res: String)
    ensures
        res@ == default_output_text(input@, speed_text@),
{
    let dir = match path_parent(input) {
        Some(p) => p,
        None => ".".to_owned(),
    };
    let stem = match path_file_stem(input) {
        Some(s) => s,
        None => String::new(),
    };
    let name = speed_file_name(stem.as_str(), speed_text);
    path_join(dir.as_str(), name.as_str())
}

/// The output path for `input`: the one asked for, else the default one.
pub open spec fn output_text(input: Seq<char>, requested: Option<Seq<char>>, speed: Seq<char>) -> Seq<char> {
    match requested {
        Some(p) => p,
        None => default_output_text(input, speed),
    }
}

/// The output path: the one asked for, else the default one.
pub fn output_path(input: &str, requested: Option<&str>, speed_text: &str) -> (res: String)
    ensures
        res@ == match requested {
            Some(p) => p@,
            None => default_output_text(input@, speed_text@),
        },
        res@ == output_text(input@, match requested { Some(p) => Some(p@), None => None }, speed_text@),
{
    match requested {
        Some(p) => p.to_owned(),
        None => default_output_path(input, speed_text),
    }
}

/// Where an upload with this job id is stored: `<upload_dir>/<id>.mp4`.
pub open spec fn upload_input_text(upload_dir: Seq<char>, job_id: Seq<char>) -> Seq<char> {
    std_path_join(upload_dir, job_id + ".mp4"@)
}

/// Where the processed video of this job goes: `<processed_dir>/<id>_out.mp4`.
pub open spec fn processed_output_text(processed_dir: Seq<char>, job_id: Seq<char>) -> Seq<char> {
    std_path_join(processed_dir, job_id + "_out.mp4"@)
}

/// The path under which the upload of a job is stored.
pub fn upload_input_path(upload_dir: &str, job_id: &str) -> (res: String)
    ensures
        res@ == upload_input_text(upload_dir@, job_id@),
{
    let name = job_id.to_owned().concat(".mp4");
    path_join(upload_dir, name.as_str())
}

/// The path to which the processed video of a job is written.
pub fn processed_output_path(processed_dir: &str, job_id: &str) -> (res: String)
    ensures
        res@ == processed_output_text(processed_dir@, job_id@),
{
    let name = job_id.to_owned().concat("_out.mp4");
    path_join(processed_dir, name.as_str())
}

/// The name offered for download: the stem of the uploaded file's name
/// (of `video` where the upload had none) and the speed.
pub open spec fn attachment_name_text(original: Option<Seq<char>>, speed: Seq<char>) -> Seq<char> {
    let name = match original {
        Some(n) => n,
        None => "video"@,
    };
    speed_file_name_text(stem_or_empty(name), speed)
}

/// The file name under which a finished video is offered for download.
pub fn attachment_name(original_filename: Option<&str>, speed_text: &str) -> (res: String)
    ensures
        res@ == attachment_name_text(
            match original_filename { Some(n) => Some(n@), None => None },
            speed_text@,
        ),
{
    let name = match original_filename {
        Some(n) => n,
        None => "video",
    };
    let stem = match path_file_stem(name) {
        Some(s) => s,
        None => String::new(),
    };
    speed_file_name(stem.as_str(), speed_text)
}

/// The `Content-Disposition` header value that offers `file_name` as an
/// attachment.
pub fn content_disposition(file_name: &str) -> (res: String)
    ensures
        res@ == "attachment; filename=\""@ + file_name@ + "\""@,
{
    let mut value = "attachment; filename=\"".to_owned();
    value.append(file_name);
    value.append("\"");
    value
}

/// The default output lies in the input's own directory: whenever
/// `Path::parent` gives a directory for the input, of any depth, the output
/// is that very directory joined with `<stem>_speed<speed>x_noaudio.mp4`,
/// the stem being the input's whole `Path::file_stem`; only an input without
/// a parent goes to `.`.
pub proof fn lemma_default_output_next_to_input(input: Seq<char>, speed: Seq<char>)
    ensures ({
        let stem = match std_path_file_stem(input) {
            Some(s) => s,
            None => Seq::<char>::empty(),
        };
        let name = stem + "_speed"@ + speed + "x_noaudio.mp4"@;
        &&& std_path_parent(input) matches Some(p) ==> default_output_text(input, speed) == std_path_join(p, name)
        &&& std_path_parent(input) is None ==> default_output_text(input, speed) == std_path_join("."@, name)
    }),
{
}

/// A requested output path is used exactly as given; without one the
/// default path is used.
pub proof fn lemma_requested_output_kept(input: Seq<char>, requested: Seq<char>, speed: Seq<char>)
    ensures
        output_text(input, Some(requested), speed) == requested,
        output_text(input, None, speed) == default_output_text(input, speed),
{
}

/// The download name keeps the uploaded name's whole `Path::file_stem`,
/// every character of it (dots included), and appends
/// `_speed<speed>x_noaudio.mp4`; an upload without a name is named after
/// the stem of `video`.
pub proof fn lemma_attachment_keeps_whole_stem(original: Option<Seq<char>>, speed: Seq<char>)
    ensures ({
        let name = match original {
            Some(n) => n,
            None => "video"@,
        };
        let stem = match std_path_file_stem(name) {
            Some(s) => s,
            None => Seq::<char>::empty(),
        };
        &&& attachment_name_text(original, speed) == stem + "_speed"@ + speed + "x_noaudio.mp4"@
        &&& attachment_name_text(original, speed).subrange(0, stem.len() as int) == stem
    }),
{
    let name = match original {
        Some(n) => n,
        None => "video"@,
    };
    let stem = match std_path_file_stem(name) {
        Some(s) => s,
        None => Seq::<char>::empty(),
    };
    assert((stem + "_speed"@ + speed + "x_noaudio.mp4"@).subrange(0, stem.len() as int) =~= stem);
}

/// The paths of an upload: the job's file `<id>.mp4` in the upload
/// directory and `<id>_out.mp4` in the output directory, each joined with
/// `Path::join`.
pub proof fn lemma_upload_paths(upload_dir: Seq<char>, processed_dir: Seq<char>, job_id: Seq<char>)
    ensures
        upload_input_text(upload_dir, job_id) == std_path_join(upload_dir, job_id + ".mp4"@),
        processed_output_text(processed_dir, job_id) == std_path_join(processed_dir, job_id + "_out.mp4"@),
{
}

} // verus!
