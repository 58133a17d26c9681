use vstd::prelude::*;
use crate::text::{extension_of, lowercase_of, path_extension, same_text, to_lowercase};

verus! {

/// What the upload handler does with one field of a multipart form.
#[derive(Debug)]
pub enum FieldDecision {
    /// The field is not the image field; the next field is looked at.
    Skip,
    /// The image has an extension that is not accepted; the upload is refused.
    InvalidFileType,
    /// The image is accepted and is stored under this (lowercase) extension.
    Accept(String),
}

/// Why an upload is refused.
#[derive(Clone, Copy, PartialEq, Eq, Structural, Debug)]
pub enum UploadFailure {
    /// The image's extension is not one of the accepted ones.
    InvalidFileType,
    /// No image field could be read and stored.
    UploadFailed,
}

/// Where an accepted upload goes: the path of the file on disk and the
/// public URL under which the web service serves it.
#[derive(Debug)]
pub struct UploadTarget {
    pub save_path: String,
    pub url: String,
}

/// The extensions of the image files that are accepted.
pub open spec fn is_allowed_extension(ext: Seq<char>) -> bool {
    ||| ext == "jpg"@
    ||| ext == "jpeg"@
    ||| ext == "png"@
    ||| ext == "gif"@
    ||| ext == "webp"@
    ||| ext == "avif"@
}

/// The accepted extensions are jpg, jpeg, png, gif, webp and avif, each of
/// three or four characters; the fallback `bin` is not one of them.
pub proof fn law_accepted_extensions(ext: Seq<char>)
    ensures
        is_allowed_extension(ext) ==> (ext.len() == 3 || ext.len() == 4),
        !is_allowed_extension("bin"@),
        is_allowed_extension("jpg"@) && is_allowed_extension("jpeg"@) && is_allowed_extension(
            "png"@,
        ) && is_allowed_extension("gif"@) && is_allowed_extension("webp"@)
            && is_allowed_extension("avif"@),
{
    reveal_strlit("jpg");
    reveal_strlit("jpeg");
    reveal_strlit("png");
    reveal_strlit("gif");
    reveal_strlit("webp");
    reveal_strlit("avif");
    reveal_strlit("bin");
    assert("bin"@[0] != "jpg"@[0]);
    assert("bin"@[0] != "png"@[0]);
    assert("bin"@[0] != "gif"@[0]);
}

/// The field is the one named `image`.
pub open spec fn is_image_field(field_name: Option<&str>) -> bool {
    match field_name {
        Some(n) => n@ == "image"@,
        None => false,
    }
}

/// The extension under which an upload is judged and stored: the extension
/// of the uploaded file's name (`upload` when it has none), `bin` where that
/// name has no extension, lowercased.
pub open spec fn upload_extension_of(file_name: Option<&str>) -> Seq<char> {
    let original = match file_name {
        Some(f) => f@,
        None => "upload"@,
    };
    lowercase_of(
        match extension_of(original) {
            Some(e) => e,
            None => "bin"@,
        },
    )
}

/// The text that `uuid::Uuid` displays itself as: 36 characters, lowercase
/// hexadecimal digits in five groups separated by `-` at positions 8, 13, 18
/// and 23.
pub open spec fn is_hyphenated_uuid(u: Seq<char>) -> bool {
    &&& u.len() == 36
    &&& forall|i: int|
        0 <= i < 36 ==> if i == 8 || i == 13 || i == 18 || i == 23 {
            #[trigger] u[i] == '-'
        } else {
            ('0' <= u[i] <= '9' || 'a' <= u[i] <= 'f')
        }
}

/// The name of a stored upload.
pub open spec fn stored_file_name(unique: Seq<char>, ext: Seq<char>) -> Seq<char> {
    unique + "."@ + ext
}

/// Where an upload with that name is stored on disk.
pub open spec fn save_path_of(unique: Seq<char>, ext: Seq<char>) -> Seq<char> {
    "static/uploads/"@ + stored_file_name(unique, ext)
}

/// The public URL under which an upload with that name is served.
pub open spec fn url_of(unique: Seq<char>, ext: Seq<char>) -> Seq<char> {
    "/static/uploads/"@ + stored_file_name(unique, ext)
}

/// The URL handed back for an upload is the path of the stored file made
/// absolute, so the static file service finds the file that was written.
pub proof fn law_url_names_saved_file(unique: Seq<char>, ext: Seq<char>)
    ensures
        url_of(unique, ext) == "/"@ + save_path_of(unique, ext),
{
    reveal_strlit("/static/uploads/");
    reveal_strlit("static/uploads/");
    reveal_strlit("/");
    assert(url_of(unique, ext) =~= "/"@ + save_path_of(unique, ext));
}

/// Calls `uuid::Uuid::new_v4` and turns the random identifier into text.
/// The identifier is random; what holds of every outcome is the shape of its
/// text (uuid's `Display` writes the lowercase hyphenated form). (uuid
/// panics when the system's random source cannot be read.)
#[verifier::external_body]
fn new_uuid_text() -> (r: String)
    ensures
        is_hyphenated_uuid(r@),
{
    uuid::Uuid::new_v4().to_string()
}

/// The extension an upload is stored under, from the extension found in the
/// uploaded file's name: that extension lowercased, or `bin` where none was
/// found.
pub fn stored_extension(found: Option<&str>) -> (r: String)
    ensures
        r@ == lowercase_of(
            match found {
                Some(e) => e@,
                None => "bin"@,
            },
        ),
{
    match found {
        Some(e) => to_lowercase(e),
        None => to_lowercase("bin"),
    }
}

/// Whether an extension is one of the accepted image extensions.
pub fn allowed_extension(ext: &str) -> (r: bool)
    ensures
        r == is_allowed_extension(ext@),
{
    same_text(ext, "jpg") || same_text(ext, "jpeg") || same_text(ext, "png") || same_text(
        ext,
        "gif",
    ) || same_text(ext, "webp") || same_text(ext, "avif")
}

/// `d` is the decision about a field with these names: skip every field but
/// `image`; refuse an image whose extension is not accepted; accept the
/// others with their extension.
pub open spec fn is_decision_for(
    field_name: Option<&str>,
    file_name: Option<&str>,
    d: FieldDecision,
) -> bool {
    &&& (d is Skip) == !is_image_field(field_name)
    &&& (d is InvalidFileType) == (is_image_field(field_name) && !is_allowed_extension(
        upload_extension_of(file_name),
    ))
    &&& d matches FieldDecision::Accept(ext) ==> {
        &&& is_image_field(field_name)
        &&& ext@ == upload_extension_of(file_name)
        &&& is_allowed_extension(ext@)
    }
}

/// Decides about one field of an upload form from the field's name and the
/// name of the file it carries: fields other than `image` are skipped; an
/// image whose extension is not accepted is refused; otherwise the image is
/// accepted with its extension.
pub fn classify_field(field_name: Option<&str>, file_name: Option<&str>) -> (r: FieldDecision)
    ensures
        is_decision_for(field_name, file_name, r),
{
    let is_image = match field_name {
        Some(n) => same_text(n, "image"),
        None => false,
    };
    if !is_image {
        return FieldDecision::Skip;
    }
    let original = match file_name {
        Some(f) => f,
        None => "upload",
    };
    let found = path_extension(original);
    let ext = match &found {
        Some(e) => stored_extension(Some(e.as_str())),
        None => stored_extension(None),
    };
    if !allowed_extension(ext.as_str()) {
        FieldDecision::InvalidFileType
    } else {
        FieldDecision::Accept(ext)
    }
}

/// The file path and URL of an upload stored under the unique name `unique`
/// and the extension `ext`: `static/uploads/<unique>.<ext>` on disk and
/// `/static/uploads/<unique>.<ext>` on the web.
pub fn upload_target_for(unique: &str, ext: &str) -> (r: UploadTarget)
    ensures
        r.save_path@ == save_path_of(unique@, ext@),
        r.url@ == url_of(unique@, ext@),
{
    let mut save_path = "static/uploads/".to_owned();
    save_path.append(unique);
    save_path.append(".");
    save_path.append(ext);
    let mut url = "/static/uploads/".to_owned();
    url.append(unique);
    url.append(".");
    url.append(ext);
    proof {
        assert(save_path@ =~= save_path_of(unique@, ext@));
        assert(url@ =~= url_of(unique@, ext@));
    }
    UploadTarget { save_path, url }
}

/// The file path and URL of a new upload with extension `ext`, under a
/// fresh random name, so that uploads cannot overwrite one another.
pub fn new_upload_target(ext: &str) -> (r: UploadTarget)
    ensures
        exists|unique: Seq<char>|
            {
                &&& is_hyphenated_uuid(unique)
                &&& r.save_path@ == save_path_of(unique, ext@)
                &&& r.url@ == url_of(unique, ext@)
            },
{
    let unique = new_uuid_text();
    upload_target_for(unique.as_str(), ext)
}

/// What the upload handler answers.
#[derive(Debug)]
pub enum UploadReply {
    /// The image was stored and is served under this URL.
    Url(String),
    /// The upload is refused.
    Error(UploadFailure),
}

/// What the upload handler has just learnt.
#[derive(Debug)]
pub enum UploadEvent {
    /// The next field of the form was read and judged.
    Classified(FieldDecision),
    /// The accepted image was written to its target.
    StoreSucceeded(UploadTarget),
    /// The accepted image could not be read or written.
    StoreFailed,
    /// The form has no further field.
    NoMoreFields,
}

/// What the upload handler does next.
#[derive(Debug)]
pub enum UploadAction {
    /// Read the next field of the form.
    ReadNextField,
    /// Write the image of the current field to this target.
    Store(UploadTarget),
    /// Answer and stop.
    Reply(UploadReply),
}

/// `r` is what the upload handler does after `event`.
pub open spec fn is_next_upload_action(event: UploadEvent, r: UploadAction) -> bool {
    match event {
        UploadEvent::Classified(FieldDecision::Skip) => r is ReadNextField,
        UploadEvent::Classified(FieldDecision::InvalidFileType) => r == UploadAction::Reply(
            UploadReply::Error(UploadFailure::InvalidFileType),
        ),
        UploadEvent::Classified(FieldDecision::Accept(ext)) => exists|unique: Seq<char>|
            {
                &&& is_hyphenated_uuid(unique)
                &&& r matches UploadAction::Store(t)
                &&& t.save_path@ == save_path_of(unique, ext@)
                &&& t.url@ == url_of(unique, ext@)
            },
        UploadEvent::StoreSucceeded(t) => r == UploadAction::Reply(UploadReply::Url(t.url)),
        UploadEvent::StoreFailed => r is ReadNextField,
        UploadEvent::NoMoreFields => r == UploadAction::Reply(
            UploadReply::Error(UploadFailure::UploadFailed),
        ),
    }
}

/// The upload handler's decision after each event: skipped fields and
/// failed writes go on to the next field; a refused extension, a stored
/// image or the end of the form is answered; an accepted image is given a
/// fresh target to be written to.
pub fn next_upload_action(event: UploadEvent) -> (r: UploadAction)
    ensures
        is_next_upload_action(event, r),
{
    match event {
        UploadEvent::Classified(FieldDecision::Skip) => UploadAction::ReadNextField,
        UploadEvent::Classified(FieldDecision::InvalidFileType) => UploadAction::Reply(
            UploadReply::Error(UploadFailure::InvalidFileType),
        ),
        UploadEvent::Classified(FieldDecision::Accept(ext)) => UploadAction::Store(
            new_upload_target(ext.as_str()),
        ),
        UploadEvent::StoreSucceeded(t) => UploadAction::Reply(UploadReply::Url(t.url)),
        UploadEvent::StoreFailed => UploadAction::ReadNextField,
        UploadEvent::NoMoreFields => UploadAction::Reply(
            UploadReply::Error(UploadFailure::UploadFailed),
        ),
    }
}

/// The upload handler stores only accepted images: a field leads to a write
/// only when it is the `image` field and its lowercased extension is an
/// accepted one; the file goes to `static/uploads/<uuid>.<extension>` and
/// the URL answered for it is that path made absolute. Once a write
/// succeeds the handler answers (status 200, that URL) and writes nothing
/// more; after a failed write it reads the next field; at the end of the
/// form, or for a refused extension, it answers with status 400.
pub proof fn law_uploads_store_only_accepted_images(
    field_name: Option<&str>,
    file_name: Option<&str>,
    decision: FieldDecision,
    action: UploadAction,
    target: UploadTarget,
    after_store: UploadAction,
    after_failure: UploadAction,
    at_end: UploadAction,
)
    requires
        is_decision_for(field_name, file_name, decision),
        is_next_upload_action(UploadEvent::Classified(decision), action),
        is_next_upload_action(UploadEvent::StoreSucceeded(target), after_store),
        is_next_upload_action(UploadEvent::StoreFailed, after_failure),
        is_next_upload_action(UploadEvent::NoMoreFields, at_end),
    ensures
        action matches UploadAction::Store(t) ==> {
            &&& is_image_field(field_name)
            &&& is_allowed_extension(upload_extension_of(file_name))
            &&& exists|unique: Seq<char>|
                {
                    &&& is_hyphenated_uuid(unique)
                    &&& t.save_path@ == save_path_of(unique, upload_extension_of(file_name))
                    &&& t.url@ == "/"@ + t.save_path@
                }
        },
        action matches UploadAction::Reply(reply) ==> reply == UploadReply::Error(
            UploadFailure::InvalidFileType,
        ) && !is_allowed_extension(upload_extension_of(file_name)),
        after_store == UploadAction::Reply(UploadReply::Url(target.url)),
        after_failure is ReadNextField,
        at_end == UploadAction::Reply(UploadReply::Error(UploadFailure::UploadFailed)),
{
    if let UploadAction::Store(t) = action {
        if let FieldDecision::Accept(ext) = decision {
            let unique = choose|unique: Seq<char>|
                {
                    &&& is_hyphenated_uuid(unique)
                    &&& t.save_path@ == save_path_of(unique, ext@)
                    &&& t.url@ == url_of(unique, ext@)
                };
            law_url_names_saved_file(unique, ext@);
        }
    }
}

impl UploadReply {
    /// The HTTP status of the answer.
    pub fn status_code(&self) -> (r: u16)
        ensures
            r == if self is Url {
                200u16
            } else {
                400u16
            },
    {
        match self {
            UploadReply::Url(_) => 200,
            UploadReply::Error(_) => 400,
        }
    }
}

impl UploadFailure {
    /// The error text that the web service answers with.
    pub fn message(&self) -> (r: &'static str)
        ensures
            *self == UploadFailure::InvalidFileType ==> r@ == "Invalid file type"@,
            *self == UploadFailure::UploadFailed ==> r@ == "Upload failed"@,
    {
        match self {
            UploadFailure::InvalidFileType => "Invalid file type",
            UploadFailure::UploadFailed => "Upload failed",
        }
    }
}

} // verus!
