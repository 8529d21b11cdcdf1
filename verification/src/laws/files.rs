//! What becomes of files.

use vstd::prelude::*;
use crate::auth::AuthUser;
use crate::cache::CacheCommand;
use crate::effect::Effect;
use crate::files::FieldKind;
use crate::files::FileDownload;
use crate::files::FileRecord;
use crate::files::Stage;
use crate::files::Upload;
use crate::files::UploadEnd;
use crate::files::download_file;
use crate::files::field_kind;
use crate::files::find_file;
use crate::files::get_nerd_font_icon_for_extension;
use crate::files::is_image;
use crate::files::named_field;
use crate::message::BroadcastMessage;
use crate::models::Channel;
use crate::outside::LATEST_SECOND;
use crate::outside::disposition_parts;
use crate::outside::hyphenated;
use crate::outside::media_type;
use crate::status::Status;
use crate::store::SqlValue;
use crate::store::Statement;

verus! {

/// A download is named by the stored name, then a dot, then the stored extension, whatever their
/// lengths, and by the name alone where no extension is stored.
pub proof fn lemma_download_named(
    record: FileRecord,
    r: Result<FileDownload, (Status, String)>,
    header: String,
)
    requires
        call_ensures(download_file, (Ok(Some(record)),), r),
        r is Ok ==> call_ensures(FileDownload::content_disposition, (&r->Ok_0,), header),
    ensures
        r is Ok,
        record.file_extension matches Some(e) ==> r->Ok_0.filename@ == record.original_name@ + "."@
            + e@,
        record.file_extension is None ==> r->Ok_0.filename@ == record.original_name@,
        header@ == "attachment; filename=\""@ + r->Ok_0.filename@ + "\""@,
{
}

/// A file that is not stored is not found, and a look-up that fails is reported with its cause.
pub proof fn lemma_download_refused(
    cause: String,
    missing: Result<FileDownload, (Status, String)>,
    failed: Result<FileDownload, (Status, String)>,
)
    requires
        call_ensures(download_file, (Ok(None),), missing),
        call_ensures(download_file, (Err(cause),), failed),
    ensures
        missing is Err && missing->Err_0.0 == Status::NotFound && missing->Err_0.1@
            == "File not found."@,
        failed is Err && failed->Err_0.0 == Status::InternalServerError && failed->Err_0.1@
            == "Failed to query file metadata: "@ + cause@,
{
}

/// The look-up of a file is for the identifier that was asked for.
pub proof fn lemma_file_found_by_identifier(file_id: &str, r: Statement)
    requires
        call_ensures(find_file, (file_id,), r),
    ensures
        r.sql@ == "SELECT original_name, file_extension FROM files WHERE id = ?"@,
        r.values@.len() == 1,
        r.values@[0] matches SqlValue::Text(id) && id@ == file_id@,
{
    assert(r.deep_view().values.len() == 1);
    assert(r.deep_view().values[0] == r.values@[0].deep_view());
}

/// A new upload has its own identifier, and holds nothing yet.
pub proof fn lemma_upload_starts(id: u128, r: Upload)
    requires
        call_ensures(Upload::under, (id,), r),
    ensures
        r.file_id@ == hyphenated(id),
        r.original_name@ == "unknown"@,
        r.extension is None,
        r.size == 0,
{
}

/// An upload is kept exactly if it holds between one byte and ten mebibytes, and then as it is.
pub proof fn lemma_upload_judged(upload: Upload, r: UploadEnd)
    requires
        call_ensures(Upload::finish, (upload,), r),
    ensures
        r is Empty <==> upload.size == 0,
        r is TooLarge <==> upload.size > 10 * 1024 * 1024,
        r matches UploadEnd::Empty { status, text } ==> status == Status::BadRequest && text@
            == "No file uploaded or file is empty."@,
        r matches UploadEnd::TooLarge { status, text } ==> status == Status::PayloadTooLarge
            && text@ == "File size exceeds limit of 10 MB"@,
        r matches UploadEnd::Kept(file) ==> {
            &&& file.file_id@ == upload.file_id@
            &&& file.original_name@ == upload.original_name@
            &&& file.extension is Some <==> upload.extension is Some
            &&& file.extension is Some ==> file.extension->0@ == upload.extension->0@
            &&& file.size == upload.size
        },
{
    if let UploadEnd::Kept(file) = r {
        assert(file.extension.deep_view() == upload.extension.deep_view());
    }
}

/// What is stored of an upload is what it holds, who sent it, where to and when.
pub proof fn lemma_upload_recorded(
    upload: Upload,
    uploader: &str,
    channel_id: &str,
    now: i64,
    r: Statement,
)
    requires
        call_ensures(Upload::insert_at, (&upload, uploader, channel_id, now), r),
        upload.size <= i64::MAX,
    ensures
        r.sql@
            == "INSERT INTO files (id, original_name, uploader_username, size_bytes, channel_id, created_at, file_extension) VALUES (?, ?, ?, ?, ?, ?, ?)"@,
        r.values@.len() == 7,
        r.values@[0] matches SqlValue::Text(s) && s@ == upload.file_id@,
        r.values@[1] matches SqlValue::Text(s) && s@ == upload.original_name@,
        r.values@[2] matches SqlValue::Text(s) && s@ == uploader@,
        r.values@[3] matches SqlValue::Integer(n) && n == upload.size,
        r.values@[4] matches SqlValue::Text(s) && s@ == channel_id@,
        r.values@[5] matches SqlValue::Integer(n) && n == now,
        upload.extension is None ==> r.values@[6] is Null,
        upload.extension matches Some(e) ==> r.values@[6] is Text && r.values@[6]->Text_0@ == e@,
{
    let view = r.deep_view().values;
    assert(view.len() == 7);
    assert(forall|i: int| 0 <= i < 7 ==> #[trigger] view[i] == r.values@[i].deep_view());
}

/// Whether a message tells of an upload: who sent it, when and where to, and what file it is.
pub open spec fn tells_of(
    m: BroadcastMessage,
    upload: Upload,
    user: AuthUser,
    channel_id: Seq<char>,
    channel: Channel,
    now: i64,
) -> bool {
    &&& m.user@ == user.0@
    &&& m.icon@ == user.1@
    &&& m.content@ == user.0@ + " uploaded a file: "@ + upload.original_name@
    &&& m.timestamp == now
    &&& m.channel_id@ == channel_id
    &&& m.channel_name@ == channel.name@
    &&& m.channel_icon@ == channel.icon@
    &&& m.message_type@ == "file"@
    &&& m.file_name is Some && m.file_name->0@ == upload.original_name@
    &&& m.file_extension is Some <==> upload.extension is Some
    &&& m.file_extension is Some ==> m.file_extension->0@ == upload.extension->0@
    &&& m.file_size_bytes == Some(upload.size)
    &&& m.image_preview is None
    &&& m.file_id is Some && m.file_id->0@ == upload.file_id@
    &&& m.download_url is Some && m.download_url->0@
        == "https://back.reetui.hackclub.app/files/download/"@ + upload.file_id@
    &&& m.download_progress == Some(0u8)
    &&& m.file_icon is Some
    &&& m.is_image is Some
}

/// An upload is told to its channel: one message is stored at the end of the channel's history and
/// published to the channel, with the uploader, the file's name, extension, size and identifier, and
/// the address that ends in that identifier.
pub proof fn lemma_upload_announced(
    upload: Upload,
    user: AuthUser,
    channel_id: &str,
    channel: Channel,
    now: i64,
    r: Vec<Effect>,
)
    requires
        call_ensures(Upload::announce_at, (&upload, &user, channel_id, &channel, now), r),
    ensures
        r@.len() == 2,
        r@[0] matches Effect::Cache(CacheCommand::Push { key, message }) && key@
            == "chat_history:"@ + channel_id@ && tells_of(
            message,
            upload,
            user,
            channel_id@,
            channel,
            now,
        ),
        r@[1] matches Effect::Cache(CacheCommand::Publish { topic, message }) && topic@ == "chat:"@
            + channel_id@ && tells_of(message, upload, user, channel_id@, channel, now),
{
    let view = r.deep_view();
    assert(view.len() == 2);
    assert(view[0] == r@[0].deep_view());
    assert(view[1] == r@[1].deep_view());
    let stored = r@[0]->Cache_0->Push_message;
    let sent = r@[1]->Cache_0->Publish_message;
    let m = upload.deep_view().announcement(user, channel_id@, channel.deep_view(), now);
    assert(stored.deep_view() == m);
    assert(sent.deep_view() == m);
}

/// The icon and the mark as an image that an upload is told with are those of its extension.
pub proof fn lemma_upload_icon(
    upload: Upload,
    user: AuthUser,
    channel_id: &str,
    channel: Channel,
    now: i64,
    r: Vec<Effect>,
    extension: Option<&str>,
    icon: &'static str,
    image: bool,
)
    requires
        call_ensures(Upload::announce_at, (&upload, &user, channel_id, &channel, now), r),
        call_ensures(get_nerd_font_icon_for_extension, (extension,), icon),
        call_ensures(is_image, (extension,), image),
        extension is Some <==> upload.extension is Some,
        extension is Some ==> extension->0@ == upload.extension->0@,
    ensures
        r@[0]->Cache_0->Push_message.file_icon is Some,
        r@[0]->Cache_0->Push_message.file_icon->0@ == icon@,
        r@[0]->Cache_0->Push_message.is_image == Some(image),
{
    let view = r.deep_view();
    assert(view.len() == 2);
    assert(view[0] == r@[0].deep_view());
    let stored = r@[0]->Cache_0->Push_message;
    assert(extension.deep_view() == upload.extension.deep_view());
    let m = upload.deep_view().announcement(user, channel_id@, channel.deep_view(), now);
    assert(stored.deep_view() == m);
}

/// A field of an upload is the file, with the name that it comes with, or the extension, or nothing
/// that counts.
pub proof fn lemma_fields(name: Option<String>, file_name: Option<String>, r: FieldKind)
    requires
        call_ensures(named_field, (name, file_name), r),
    ensures
        r is File <==> name is Some && name->0@ == "file"@,
        r is Extension <==> name is Some && name->0@ == "file_extension"@,
        r matches FieldKind::File { name: n } ==> {
            &&& n is Some <==> file_name is Some
            &&& n is Some ==> n->0@ == file_name->0@
        },
{
    reveal_strlit("file");
    reveal_strlit("file_extension");
    assert("file"@.len() == 4 && "file_extension"@.len() == 14);
    if let FieldKind::File { name: n } = r {
        assert(n.deep_view() == file_name.deep_view());
    }
}

/// What went wrong is told with the stage and the cause.
pub proof fn lemma_failures(stage: Stage, cause: &str, r: (Status, String))
    requires
        call_ensures(Stage::failure, (stage, cause), r),
    ensures
        r.0 == Status::InternalServerError,
        stage is CreateDirectory ==> r.1@ == "Failed to create upload directory: "@ + cause@,
        stage is CreateFile ==> r.1@ == "Failed to create destination file: "@ + cause@,
        stage is WriteFile ==> r.1@ == "Failed to write file: "@ + cause@,
        stage is ReadExtension ==> r.1@ == "Failed to read file extension: "@ + cause@,
        stage is RemoveFile ==> r.1@ == "Failed to remove oversized file: "@ + cause@,
        stage is InsertMetadata ==> r.1@ == "Failed to insert file metadata: "@ + cause@,
        stage is ConnectRedis ==> r.1@ == "Failed to connect to Redis: "@ + cause@,
        stage is FindChannel ==> r.1@ == "Failed to get channel info: "@ + cause@,
        stage is Serialize ==> r.1@ == "Failed to serialize message: "@ + cause@,
        stage is SaveHistory ==> r.1@ == "Failed to save message to Redis history: "@ + cause@,
        stage is Publish ==> r.1@ == "Failed to publish message to Redis: "@ + cause@,
        stage is QueryMetadata ==> r.1@ == "Failed to query file metadata: "@ + cause@,
        stage is OpenFile ==> r.1@ == "Failed to open file for download: "@ + cause@,
{
}

/// The extensions of images are these six, and they alone are shown with the icon of an image.
pub proof fn lemma_images(e: &str, image: bool, icon: &'static str, none: bool)
    requires
        call_ensures(is_image, (Some(e),), image),
        call_ensures(get_nerd_font_icon_for_extension, (Some(e),), icon),
        call_ensures(is_image, (None,), none),
    ensures
        image <==> seq!["jpg"@, "jpeg"@, "png"@, "gif"@, "bmp"@, "svg"@].contains(e@),
        image <==> icon@ == "\u{f1c5}"@,
        !none,
{
    let all = seq!["jpg"@, "jpeg"@, "png"@, "gif"@, "bmp"@, "svg"@];
    assert(all[0] == "jpg"@ && all[1] == "jpeg"@ && all[2] == "png"@ && all[3] == "gif"@ && all[4]
        == "bmp"@ && all[5] == "svg"@);
    assert(Some(e).deep_view() == Some(e@));
    crate::files::lemma_image_icon(Some(e@));
}

/// Each kind of file has its own icon, and a file of no known kind has the icon of a plain file.
pub proof fn lemma_icons(e: &str, icon: &'static str, none: &'static str)
    requires
        call_ensures(get_nerd_font_icon_for_extension, (Some(e),), icon),
        call_ensures(get_nerd_font_icon_for_extension, (None,), none),
    ensures
        e@ == "pdf"@ ==> icon@ == "\u{f1c1}"@,
        e@ == "doc"@ || e@ == "docx"@ ==> icon@ == "\u{f1c2}"@,
        e@ == "xls"@ || e@ == "xlsx"@ ==> icon@ == "\u{f1c3}"@,
        e@ == "ppt"@ || e@ == "pptx"@ ==> icon@ == "\u{f1c4}"@,
        e@ == "zip"@ || e@ == "tar"@ || e@ == "gz"@ || e@ == "rar"@ ==> icon@ == "\u{f1c6}"@,
        e@ == "jpg"@ || e@ == "jpeg"@ || e@ == "png"@ || e@ == "gif"@ || e@ == "bmp"@ || e@ == "svg"@ ==> icon@ == "\u{f1c5}"@,
        e@ == "mp3"@ || e@ == "wav"@ || e@ == "ogg"@ ==> icon@ == "\u{f1c7}"@,
        e@ == "mp4"@ || e@ == "mkv"@ || e@ == "avi"@ ==> icon@ == "\u{f1c8}"@,
        e@ == "txt"@ ==> icon@ == "\u{f0f6}"@,
        e@ == "json"@ ==> icon@ == "\u{e60b}"@,
        e@ == "xml"@ ==> icon@ == "\u{f05c0}"@,
        e@ == "html"@ || e@ == "htm"@ ==> icon@ == "\u{e736}"@,
        e@ == "css"@ ==> icon@ == "\u{e6b8}"@,
        e@ == "js"@ || e@ == "jsx"@ ==> icon@ == "\u{f2ef}"@,
        e@ == "ts"@ || e@ == "tsx"@ ==> icon@ == "\u{e69d}"@,
        e@ == "py"@ ==> icon@ == "\u{ed1b}"@,
        e@ == "rs"@ ==> icon@ == "\u{f1617}"@,
        e@ == "go"@ ==> icon@ == "\u{f07d3}"@,
        e@ == "java"@ ==> icon@ == "\u{edaf}"@,
        e@ == "c"@ || e@ == "cpp"@ || e@ == "h"@ ==> icon@ == "\u{e61e}"@,
        e@ == "sh"@ || e@ == "bash"@ ==> icon@ == "\u{e760}"@,
        e@ == "md"@ ==> icon@ == "\u{e73e}"@,
        !(e@ == "pdf"@
            || e@ == "doc"@ || e@ == "docx"@
            || e@ == "xls"@ || e@ == "xlsx"@
            || e@ == "ppt"@ || e@ == "pptx"@
            || e@ == "zip"@ || e@ == "tar"@ || e@ == "gz"@ || e@ == "rar"@
            || e@ == "jpg"@ || e@ == "jpeg"@ || e@ == "png"@ || e@ == "gif"@ || e@ == "bmp"@ || e@ == "svg"@
            || e@ == "mp3"@ || e@ == "wav"@ || e@ == "ogg"@
            || e@ == "mp4"@ || e@ == "mkv"@ || e@ == "avi"@
            || e@ == "txt"@
            || e@ == "json"@
            || e@ == "xml"@
            || e@ == "html"@ || e@ == "htm"@
            || e@ == "css"@
            || e@ == "js"@ || e@ == "jsx"@
            || e@ == "ts"@ || e@ == "tsx"@
            || e@ == "py"@
            || e@ == "rs"@
            || e@ == "go"@
            || e@ == "java"@
            || e@ == "c"@ || e@ == "cpp"@ || e@ == "h"@
            || e@ == "sh"@ || e@ == "bash"@
            || e@ == "md"@) ==> icon@ == "\u{f15b}"@,
        none@ == "\u{f15b}"@,
{
    assert(Some(e).deep_view() == Some(e@));
    lemma_letters();
}

proof fn lemma_letters()
    ensures
        "pdf"@.len() == 3 && "pdf"@[0] == 'p' && "pdf"@[1] == 'd' && "pdf"@[2] == 'f',
        "doc"@.len() == 3 && "doc"@[0] == 'd' && "doc"@[1] == 'o' && "doc"@[2] == 'c',
        "docx"@.len() == 4 && "docx"@[0] == 'd' && "docx"@[1] == 'o' && "docx"@[2] == 'c' && "docx"@[3] == 'x',
        "xls"@.len() == 3 && "xls"@[0] == 'x' && "xls"@[1] == 'l' && "xls"@[2] == 's',
        "xlsx"@.len() == 4 && "xlsx"@[0] == 'x' && "xlsx"@[1] == 'l' && "xlsx"@[2] == 's' && "xlsx"@[3] == 'x',
        "ppt"@.len() == 3 && "ppt"@[0] == 'p' && "ppt"@[1] == 'p' && "ppt"@[2] == 't',
        "pptx"@.len() == 4 && "pptx"@[0] == 'p' && "pptx"@[1] == 'p' && "pptx"@[2] == 't' && "pptx"@[3] == 'x',
        "zip"@.len() == 3 && "zip"@[0] == 'z' && "zip"@[1] == 'i' && "zip"@[2] == 'p',
        "tar"@.len() == 3 && "tar"@[0] == 't' && "tar"@[1] == 'a' && "tar"@[2] == 'r',
        "gz"@.len() == 2 && "gz"@[0] == 'g' && "gz"@[1] == 'z',
        "rar"@.len() == 3 && "rar"@[0] == 'r' && "rar"@[1] == 'a' && "rar"@[2] == 'r',
        "jpg"@.len() == 3 && "jpg"@[0] == 'j' && "jpg"@[1] == 'p' && "jpg"@[2] == 'g',
        "jpeg"@.len() == 4 && "jpeg"@[0] == 'j' && "jpeg"@[1] == 'p' && "jpeg"@[2] == 'e' && "jpeg"@[3] == 'g',
        "png"@.len() == 3 && "png"@[0] == 'p' && "png"@[1] == 'n' && "png"@[2] == 'g',
        "gif"@.len() == 3 && "gif"@[0] == 'g' && "gif"@[1] == 'i' && "gif"@[2] == 'f',
        "bmp"@.len() == 3 && "bmp"@[0] == 'b' && "bmp"@[1] == 'm' && "bmp"@[2] == 'p',
        "svg"@.len() == 3 && "svg"@[0] == 's' && "svg"@[1] == 'v' && "svg"@[2] == 'g',
        "mp3"@.len() == 3 && "mp3"@[0] == 'm' && "mp3"@[1] == 'p' && "mp3"@[2] == '3',
        "wav"@.len() == 3 && "wav"@[0] == 'w' && "wav"@[1] == 'a' && "wav"@[2] == 'v',
        "ogg"@.len() == 3 && "ogg"@[0] == 'o' && "ogg"@[1] == 'g' && "ogg"@[2] == 'g',
        "mp4"@.len() == 3 && "mp4"@[0] == 'm' && "mp4"@[1] == 'p' && "mp4"@[2] == '4',
        "mkv"@.len() == 3 && "mkv"@[0] == 'm' && "mkv"@[1] == 'k' && "mkv"@[2] == 'v',
        "avi"@.len() == 3 && "avi"@[0] == 'a' && "avi"@[1] == 'v' && "avi"@[2] == 'i',
        "txt"@.len() == 3 && "txt"@[0] == 't' && "txt"@[1] == 'x' && "txt"@[2] == 't',
        "json"@.len() == 4 && "json"@[0] == 'j' && "json"@[1] == 's' && "json"@[2] == 'o' && "json"@[3] == 'n',
        "xml"@.len() == 3 && "xml"@[0] == 'x' && "xml"@[1] == 'm' && "xml"@[2] == 'l',
        "html"@.len() == 4 && "html"@[0] == 'h' && "html"@[1] == 't' && "html"@[2] == 'm' && "html"@[3] == 'l',
        "htm"@.len() == 3 && "htm"@[0] == 'h' && "htm"@[1] == 't' && "htm"@[2] == 'm',
        "css"@.len() == 3 && "css"@[0] == 'c' && "css"@[1] == 's' && "css"@[2] == 's',
        "js"@.len() == 2 && "js"@[0] == 'j' && "js"@[1] == 's',
        "jsx"@.len() == 3 && "jsx"@[0] == 'j' && "jsx"@[1] == 's' && "jsx"@[2] == 'x',
        "ts"@.len() == 2 && "ts"@[0] == 't' && "ts"@[1] == 's',
        "tsx"@.len() == 3 && "tsx"@[0] == 't' && "tsx"@[1] == 's' && "tsx"@[2] == 'x',
        "py"@.len() == 2 && "py"@[0] == 'p' && "py"@[1] == 'y',
        "rs"@.len() == 2 && "rs"@[0] == 'r' && "rs"@[1] == 's',
        "go"@.len() == 2 && "go"@[0] == 'g' && "go"@[1] == 'o',
        "java"@.len() == 4 && "java"@[0] == 'j' && "java"@[1] == 'a' && "java"@[2] == 'v' && "java"@[3] == 'a',
        "c"@.len() == 1 && "c"@[0] == 'c',
        "cpp"@.len() == 3 && "cpp"@[0] == 'c' && "cpp"@[1] == 'p' && "cpp"@[2] == 'p',
        "h"@.len() == 1 && "h"@[0] == 'h',
        "sh"@.len() == 2 && "sh"@[0] == 's' && "sh"@[1] == 'h',
        "bash"@.len() == 4 && "bash"@[0] == 'b' && "bash"@[1] == 'a' && "bash"@[2] == 's' && "bash"@[3] == 'h',
        "md"@.len() == 2 && "md"@[0] == 'm' && "md"@[1] == 'd',
{
    reveal_strlit("pdf");
    reveal_strlit("doc");
    reveal_strlit("docx");
    reveal_strlit("xls");
    reveal_strlit("xlsx");
    reveal_strlit("ppt");
    reveal_strlit("pptx");
    reveal_strlit("zip");
    reveal_strlit("tar");
    reveal_strlit("gz");
    reveal_strlit("rar");
    reveal_strlit("jpg");
    reveal_strlit("jpeg");
    reveal_strlit("png");
    reveal_strlit("gif");
    reveal_strlit("bmp");
    reveal_strlit("svg");
    reveal_strlit("mp3");
    reveal_strlit("wav");
    reveal_strlit("ogg");
    reveal_strlit("mp4");
    reveal_strlit("mkv");
    reveal_strlit("avi");
    reveal_strlit("txt");
    reveal_strlit("json");
    reveal_strlit("xml");
    reveal_strlit("html");
    reveal_strlit("htm");
    reveal_strlit("css");
    reveal_strlit("js");
    reveal_strlit("jsx");
    reveal_strlit("ts");
    reveal_strlit("tsx");
    reveal_strlit("py");
    reveal_strlit("rs");
    reveal_strlit("go");
    reveal_strlit("java");
    reveal_strlit("c");
    reveal_strlit("cpp");
    reveal_strlit("h");
    reveal_strlit("sh");
    reveal_strlit("bash");
    reveal_strlit("md");
}

/// A field is told by its name in the header that describes it, and a file's name is the one there.
pub proof fn lemma_described_fields(header: &str, r: FieldKind, none: FieldKind)
    requires
        call_ensures(field_kind, (Some(header),), r),
        call_ensures(field_kind, (None,), none),
    ensures
        none is Other,
        r is File <==> disposition_parts(header@).0 == Some("file"@),
        r is Extension <==> disposition_parts(header@).0 == Some("file_extension"@),
        r matches FieldKind::File { name } ==> name.deep_view() == disposition_parts(header@).1,
{
    reveal_strlit("file");
    reveal_strlit("file_extension");
    assert("file"@.len() == 4 && "file_extension"@.len() == 14);
}

/// The type of a download is that of its name, where the name is no path.
pub proof fn lemma_content_type(file: FileDownload, r: String)
    requires
        call_ensures(FileDownload::content_type, (&file,), r),
        forall|i: int|
            0 <= i < file.filename@.len() ==> #[trigger] file.filename@[i] != '/'
                && file.filename@[i] != '\\' && file.filename@[i] != ':',
    ensures
        r@ == media_type(file.filename@),
{
}

/// An upload is recorded and announced at a second of the clock, with all it holds.
pub proof fn lemma_upload_now(
    upload: Upload,
    user: AuthUser,
    uploader: &str,
    channel_id: &str,
    channel: Channel,
    r: Statement,
    s: Vec<Effect>,
)
    requires
        call_ensures(Upload::insert, (&upload, uploader, channel_id), r),
        call_ensures(Upload::announce, (&upload, &user, channel_id, &channel), s),
        0 < upload.size <= 10 * 1024 * 1024,
    ensures
        r.values@.len() == 7,
        r.values@[0] matches SqlValue::Text(t) && t@ == upload.file_id@,
        r.values@[1] matches SqlValue::Text(t) && t@ == upload.original_name@,
        r.values@[2] matches SqlValue::Text(t) && t@ == uploader@,
        r.values@[3] matches SqlValue::Integer(n) && n == upload.size,
        r.values@[4] matches SqlValue::Text(t) && t@ == channel_id@,
        r.values@[5] matches SqlValue::Integer(n) && 0 <= n <= LATEST_SECOND,
        s@.len() == 2,
        s@[0] matches Effect::Cache(CacheCommand::Push { key, message: m }) && key@
            == "chat_history:"@ + channel_id@ && 0 <= m.timestamp <= LATEST_SECOND && tells_of(
            m,
            upload,
            user,
            channel_id@,
            channel,
            m.timestamp,
        ),
        s@[1] matches Effect::Cache(CacheCommand::Publish { topic, message: m }) && topic@
            == "chat:"@ + channel_id@ && tells_of(
            m,
            upload,
            user,
            channel_id@,
            channel,
            m.timestamp,
        ),
{
    let at = choose|at: i64|
        0 <= at <= LATEST_SECOND && r.deep_view() == #[trigger] upload.deep_view().insertion(
            uploader@,
            channel_id@,
            at,
        );
    let values = r.deep_view().values;
    assert(values.len() == 7);
    assert(forall|i: int| 0 <= i < 7 ==> #[trigger] values[i] == r.values@[i].deep_view());
    let now = choose|now: i64|
        0 <= now <= LATEST_SECOND && s.deep_view() == #[trigger] upload.deep_view().announcing(
            user,
            channel_id@,
            channel.deep_view(),
            now,
        );
    let view = s.deep_view();
    assert(view.len() == 2);
    assert(view[0] == s@[0].deep_view());
    assert(view[1] == s@[1].deep_view());
    let m = upload.deep_view().announcement(user, channel_id@, channel.deep_view(), now);
    assert(s@[0]->Cache_0->Push_message.deep_view() == m);
    assert(s@[1]->Cache_0->Publish_message.deep_view() == m);
}

} // verus!
