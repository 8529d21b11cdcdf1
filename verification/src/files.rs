//! Files that users share: uploads, the icons that stand for them, and downloads.

use vstd::prelude::*;
use vstd::string::*;
use crate::auth::AuthUser;
use crate::cache::channel_topic;
use crate::cache::history_key;
use crate::cache::CacheCommand;
use crate::cache::CacheView;
use crate::effect::two;
use crate::effect::Effect;
use crate::effect::EffectView;
use crate::message::BroadcastMessage;
use crate::message::MessageView;
use crate::models::Channel;
use crate::models::ChannelView;
use crate::outside::clock_seconds;
use crate::outside::disposition_parts;
use crate::outside::guess_media_type;
use crate::outside::hex_digit;
use crate::outside::hyphenated;
use crate::outside::lossy_text;
use crate::outside::media_type;
use crate::outside::portable_name;
use crate::outside::random_identifier;
use crate::outside::random_uuid;
use crate::outside::read_disposition;
use crate::outside::read_lossy;
use crate::outside::uuid_text;
use crate::outside::LATEST_SECOND;
use crate::status::Status;
use crate::store::statement;
use crate::store::statement1;
use crate::store::text_value;
use crate::store::SqlValue;
use crate::store::SqlView;
use crate::store::Statement;
use crate::store::StatementView;
use crate::text::plus;
use crate::text::same;

verus! {

/// The directory that holds the files, each under its identifier.
pub const UPLOADS_DIR: &'static str = "uploads";

/// The most bytes that a file has.
pub const MAX_FILE_SIZE: u64 = 10_485_760;

/// The icon that stands for a file with an extension.
pub open spec fn file_icon(extension: Option<Seq<char>>) -> Seq<char> {
    match extension {
        Some(e) => {
            if e == "pdf"@ {
                "\u{f1c1}"@
            } else if e == "doc"@ || e == "docx"@ {
                "\u{f1c2}"@
            } else if e == "xls"@ || e == "xlsx"@ {
                "\u{f1c3}"@
            } else if e == "ppt"@ || e == "pptx"@ {
                "\u{f1c4}"@
            } else if e == "zip"@ || e == "tar"@ || e == "gz"@ || e == "rar"@ {
                "\u{f1c6}"@
            } else if e == "jpg"@ || e == "jpeg"@ || e == "png"@ || e == "gif"@ || e == "bmp"@
                || e == "svg"@ {
                "\u{f1c5}"@
            } else if e == "mp3"@ || e == "wav"@ || e == "ogg"@ {
                "\u{f1c7}"@
            } else if e == "mp4"@ || e == "mkv"@ || e == "avi"@ {
                "\u{f1c8}"@
            } else if e == "txt"@ {
                "\u{f0f6}"@
            } else if e == "json"@ {
                "\u{e60b}"@
            } else if e == "xml"@ {
                "\u{f05c0}"@
            } else if e == "html"@ || e == "htm"@ {
                "\u{e736}"@
            } else if e == "css"@ {
                "\u{e6b8}"@
            } else if e == "js"@ || e == "jsx"@ {
                "\u{f2ef}"@
            } else if e == "ts"@ || e == "tsx"@ {
                "\u{e69d}"@
            } else if e == "py"@ {
                "\u{ed1b}"@
            } else if e == "rs"@ {
                "\u{f1617}"@
            } else if e == "go"@ {
                "\u{f07d3}"@
            } else if e == "java"@ {
                "\u{edaf}"@
            } else if e == "c"@ || e == "cpp"@ || e == "h"@ {
                "\u{e61e}"@
            } else if e == "sh"@ || e == "bash"@ {
                "\u{e760}"@
            } else if e == "md"@ {
                "\u{e73e}"@
            } else {
                "\u{f15b}"@
            }
        },
        None => "\u{f15b}"@,
    }
}

/// The icon that stands for a file with an extension.
pub fn get_nerd_font_icon_for_extension(extension: Option<&str>) -> (r: &'static str)
    ensures
        r@ == file_icon(extension.deep_view()),
{
    let e: &str = match extension {
        Some(e) => e,
        None => return "\u{f15b}",
    };
    if same(e, "pdf") {
        "\u{f1c1}"
    } else if same(e, "doc") || same(e, "docx") {
        "\u{f1c2}"
    } else if same(e, "xls") || same(e, "xlsx") {
        "\u{f1c3}"
    } else if same(e, "ppt") || same(e, "pptx") {
        "\u{f1c4}"
    } else if same(e, "zip") || same(e, "tar") || same(e, "gz") || same(e, "rar") {
        "\u{f1c6}"
    } else if same(e, "jpg") || same(e, "jpeg") || same(e, "png") || same(e, "gif") || same(
        e,
        "bmp",
    ) || same(e, "svg") {
        "\u{f1c5}"
    } else if same(e, "mp3") || same(e, "wav") || same(e, "ogg") {
        "\u{f1c7}"
    } else if same(e, "mp4") || same(e, "mkv") || same(e, "avi") {
        "\u{f1c8}"
    } else if same(e, "txt") {
        "\u{f0f6}"
    } else if same(e, "json") {
        "\u{e60b}"
    } else if same(e, "xml") {
        "\u{f05c0}"
    } else if same(e, "html") || same(e, "htm") {
        "\u{e736}"
    } else if same(e, "css") {
        "\u{e6b8}"
    } else if same(e, "js") || same(e, "jsx") {
        "\u{f2ef}"
    } else if same(e, "ts") || same(e, "tsx") {
        "\u{e69d}"
    } else if same(e, "py") {
        "\u{ed1b}"
    } else if same(e, "rs") {
        "\u{f1617}"
    } else if same(e, "go") {
        "\u{f07d3}"
    } else if same(e, "java") {
        "\u{edaf}"
    } else if same(e, "c") || same(e, "cpp") || same(e, "h") {
        "\u{e61e}"
    } else if same(e, "sh") || same(e, "bash") {
        "\u{e760}"
    } else if same(e, "md") {
        "\u{e73e}"
    } else {
        "\u{f15b}"
    }
}

/// Whether an extension is one of an image.
pub open spec fn image_extension(extension: Option<Seq<char>>) -> bool {
    match extension {
        Some(e) => e == "jpg"@ || e == "jpeg"@ || e == "png"@ || e == "gif"@ || e == "bmp"@ || e
            == "svg"@,
        None => false,
    }
}

/// Whether an extension is one of an image.
pub fn is_image(extension: Option<&str>) -> (r: bool)
    ensures
        r == image_extension(extension.deep_view()),
{
    match extension {
        Some(e) => same(e, "jpg") || same(e, "jpeg") || same(e, "png") || same(e, "gif") || same(
            e,
            "bmp",
        ) || same(e, "svg"),
        None => false,
    }
}

/// The files that count as images are those that have the icon of an image.
pub proof fn lemma_image_icon(extension: Option<Seq<char>>)
    ensures
        image_extension(extension) <==> file_icon(extension) == "\u{f1c5}"@,
{
    lemma_icon_characters();
    lemma_extension_letters();
}

proof fn lemma_extension_letters()
    ensures
        "pdf"@.len() == 3 && "pdf"@[0] == 'p' && "pdf"@[1] == 'd',
        "doc"@.len() == 3 && "doc"@[0] == 'd' && "doc"@[1] == 'o',
        "docx"@.len() == 4 && "docx"@[0] == 'd' && "docx"@[1] == 'o',
        "xls"@.len() == 3 && "xls"@[0] == 'x' && "xls"@[1] == 'l',
        "xlsx"@.len() == 4 && "xlsx"@[0] == 'x' && "xlsx"@[1] == 'l',
        "ppt"@.len() == 3 && "ppt"@[0] == 'p' && "ppt"@[1] == 'p',
        "pptx"@.len() == 4 && "pptx"@[0] == 'p' && "pptx"@[1] == 'p',
        "zip"@.len() == 3 && "zip"@[0] == 'z' && "zip"@[1] == 'i',
        "tar"@.len() == 3 && "tar"@[0] == 't' && "tar"@[1] == 'a',
        "gz"@.len() == 2 && "gz"@[0] == 'g' && "gz"@[1] == 'z',
        "rar"@.len() == 3 && "rar"@[0] == 'r' && "rar"@[1] == 'a',
        "jpg"@.len() == 3 && "jpg"@[0] == 'j' && "jpg"@[1] == 'p',
        "jpeg"@.len() == 4 && "jpeg"@[0] == 'j' && "jpeg"@[1] == 'p',
        "png"@.len() == 3 && "png"@[0] == 'p' && "png"@[1] == 'n',
        "gif"@.len() == 3 && "gif"@[0] == 'g' && "gif"@[1] == 'i',
        "bmp"@.len() == 3 && "bmp"@[0] == 'b' && "bmp"@[1] == 'm',
        "svg"@.len() == 3 && "svg"@[0] == 's' && "svg"@[1] == 'v',
{
    reveal_strlit("pdf");
    reveal_strlit("doc");
    reveal_strlit("docx");
    reveal_strlit("xls");
    reveal_strlit("xlsx");
    reveal_strlit("ppt");
    reveal_strlit("pptx");
    reveal_strlit("zip");
    reveal_strlit("tar");
    reveal_strlit("gz");
    reveal_strlit("rar");
    reveal_strlit("jpg");
    reveal_strlit("jpeg");
    reveal_strlit("png");
    reveal_strlit("gif");
    reveal_strlit("bmp");
    reveal_strlit("svg");
}

proof fn lemma_icon_characters()
    ensures
        "\u{f1c1}"@[0] == '\u{f1c1}',
        "\u{f1c2}"@[0] == '\u{f1c2}',
        "\u{f1c3}"@[0] == '\u{f1c3}',
        "\u{f1c4}"@[0] == '\u{f1c4}',
        "\u{f1c6}"@[0] == '\u{f1c6}',
        "\u{f1c5}"@[0] == '\u{f1c5}',
        "\u{f1c7}"@[0] == '\u{f1c7}',
        "\u{f1c8}"@[0] == '\u{f1c8}',
        "\u{f0f6}"@[0] == '\u{f0f6}',
        "\u{e60b}"@[0] == '\u{e60b}',
        "\u{f05c0}"@[0] == '\u{f05c0}',
        "\u{e736}"@[0] == '\u{e736}',
        "\u{e6b8}"@[0] == '\u{e6b8}',
        "\u{f2ef}"@[0] == '\u{f2ef}',
        "\u{e69d}"@[0] == '\u{e69d}',
        "\u{ed1b}"@[0] == '\u{ed1b}',
        "\u{f1617}"@[0] == '\u{f1617}',
        "\u{f07d3}"@[0] == '\u{f07d3}',
        "\u{edaf}"@[0] == '\u{edaf}',
        "\u{e61e}"@[0] == '\u{e61e}',
        "\u{e760}"@[0] == '\u{e760}',
        "\u{e73e}"@[0] == '\u{e73e}',
        "\u{f15b}"@[0] == '\u{f15b}',
{
    reveal_strlit("\u{f1c1}");
    reveal_strlit("\u{f1c2}");
    reveal_strlit("\u{f1c3}");
    reveal_strlit("\u{f1c4}");
    reveal_strlit("\u{f1c6}");
    reveal_strlit("\u{f1c5}");
    reveal_strlit("\u{f1c7}");
    reveal_strlit("\u{f1c8}");
    reveal_strlit("\u{f0f6}");
    reveal_strlit("\u{e60b}");
    reveal_strlit("\u{f05c0}");
    reveal_strlit("\u{e736}");
    reveal_strlit("\u{e6b8}");
    reveal_strlit("\u{f2ef}");
    reveal_strlit("\u{e69d}");
    reveal_strlit("\u{ed1b}");
    reveal_strlit("\u{f1617}");
    reveal_strlit("\u{f07d3}");
    reveal_strlit("\u{edaf}");
    reveal_strlit("\u{e61e}");
    reveal_strlit("\u{e760}");
    reveal_strlit("\u{e73e}");
    reveal_strlit("\u{f15b}");
}

/// What can fail outside while a file is uploaded or downloaded.
#[derive(Debug, Clone, Copy, PartialEq, Eq, Structural)]
pub enum Stage {
    CreateDirectory,
    CreateFile,
    WriteFile,
    ReadExtension,
    RemoveFile,
    InsertMetadata,
    ConnectRedis,
    FindChannel,
    Serialize,
    SaveHistory,
    Publish,
    QueryMetadata,
    OpenFile,
}

impl Stage {
    /// How the answer begins that tells of the failure.
    pub open spec fn complaint(self) -> Seq<char> {
        match self {
            Stage::CreateDirectory => "Failed to create upload directory: "@,
            Stage::CreateFile => "Failed to create destination file: "@,
            Stage::WriteFile => "Failed to write file: "@,
            Stage::ReadExtension => "Failed to read file extension: "@,
            Stage::RemoveFile => "Failed to remove oversized file: "@,
            Stage::InsertMetadata => "Failed to insert file metadata: "@,
            Stage::ConnectRedis => "Failed to connect to Redis: "@,
            Stage::FindChannel => "Failed to get channel info: "@,
            Stage::Serialize => "Failed to serialize message: "@,
            Stage::SaveHistory => "Failed to save message to Redis history: "@,
            Stage::Publish => "Failed to publish message to Redis: "@,
            Stage::QueryMetadata => "Failed to query file metadata: "@,
            Stage::OpenFile => "Failed to open file for download: "@,
        }
    }

    /// The answer that tells of the failure, with what is known of its cause.
    pub fn failure(self, cause: &str) -> (r: (Status, String))
        ensures
            r.0 == Status::InternalServerError,
            r.1@ == self.complaint() + cause@,
    {
        let text: &'static str = match self {
            Stage::CreateDirectory => "Failed to create upload directory: ",
            Stage::CreateFile => "Failed to create destination file: ",
            Stage::WriteFile => "Failed to write file: ",
            Stage::ReadExtension => "Failed to read file extension: ",
            Stage::RemoveFile => "Failed to remove oversized file: ",
            Stage::InsertMetadata => "Failed to insert file metadata: ",
            Stage::ConnectRedis => "Failed to connect to Redis: ",
            Stage::FindChannel => "Failed to get channel info: ",
            Stage::Serialize => "Failed to serialize message: ",
            Stage::SaveHistory => "Failed to save message to Redis history: ",
            Stage::Publish => "Failed to publish message to Redis: ",
            Stage::QueryMetadata => "Failed to query file metadata: ",
            Stage::OpenFile => "Failed to open file for download: ",
        };
        (Status::InternalServerError, plus(text, cause))
    }
}

/// What a field of an upload asks for.
#[derive(Debug)]
pub enum FieldKind {
    /// The field holds the file, with the name that it gives it.
    File { name: Option<String> },
    /// The field holds the extension.
    Extension,
    /// The field is skipped.
    Other,
}

/// What a kind of field holds.
pub enum FieldView {
    File { name: Option<Seq<char>> },
    Extension,
    Other,
}

impl DeepView for FieldKind {
    type V = FieldView;

    open spec fn deep_view(&self) -> FieldView {
        match self {
            FieldKind::File { name } => FieldView::File { name: name.deep_view() },
            FieldKind::Extension => FieldView::Extension,
            FieldKind::Other => FieldView::Other,
        }
    }
}

/// What a field asks for, by its name and the file name that it gives.
pub open spec fn field_of(name: Option<Seq<char>>, file_name: Option<Seq<char>>) -> FieldView {
    match name {
        Some(n) => if n == "file"@ {
            FieldView::File { name: file_name }
        } else if n == "file_extension"@ {
            FieldView::Extension
        } else {
            FieldView::Other
        },
        None => FieldView::Other,
    }
}

/// What a field asks for, by its name and the file name that it gives.
pub fn named_field(name: Option<String>, file_name: Option<String>) -> (r: FieldKind)
    ensures
        r.deep_view() == field_of(name.deep_view(), file_name.deep_view()),
{
    match name {
        Some(n) => {
            if same(n.as_str(), "file") {
                FieldKind::File { name: file_name }
            } else if same(n.as_str(), "file_extension") {
                FieldKind::Extension
            } else {
                FieldKind::Other
            }
        },
        None => FieldKind::Other,
    }
}

/// What a field asks for that has this `Content-Disposition` header, if it has one.
pub fn field_kind(disposition: Option<&str>) -> (r: FieldKind)
    ensures
        r.deep_view() == match disposition {
            Some(header) => field_of(disposition_parts(header@).0, disposition_parts(header@).1),
            None => FieldView::Other,
        },
{
    match disposition {
        Some(header) => {
            let (name, file_name) = read_disposition(header);
            named_field(name, file_name)
        },
        None => FieldKind::Other,
    }
}

/// An upload while its fields are read.
#[derive(Debug)]
pub struct Upload {
    pub file_id: String,
    pub original_name: String,
    pub extension: Option<String>,
    pub size: u64,
}

/// What an upload holds.
pub struct UploadView {
    pub file_id: Seq<char>,
    pub original_name: Seq<char>,
    pub extension: Option<Seq<char>>,
    pub size: u64,
}

impl DeepView for Upload {
    type V = UploadView;

    open spec fn deep_view(&self) -> UploadView {
        UploadView {
            file_id: self.file_id@,
            original_name: self.original_name@,
            extension: self.extension.deep_view(),
            size: self.size,
        }
    }
}

/// An upload of which nothing is known yet.
pub open spec fn empty_upload(id: u128) -> UploadView {
    UploadView {
        file_id: hyphenated(id),
        original_name: "unknown"@,
        extension: None,
        size: 0,
    }
}

/// What an upload comes to when its fields are read.
pub enum UploadEnd {
    /// There is no file in it.
    Empty { status: Status, text: String },
    /// The file is too large. It is removed, and this is answered.
    TooLarge { status: Status, text: String },
    /// The file is kept.
    Kept(Upload),
}

impl UploadView {
    /// Whether the file has a size that is kept.
    pub open spec fn is_kept(self) -> bool {
        0 < self.size <= MAX_FILE_SIZE
    }

    /// The statement that stores what is known of the file.
    pub open spec fn insertion(
        self,
        uploader: Seq<char>,
        channel_id: Seq<char>,
        now: i64,
    ) -> StatementView {
        StatementView {
            sql:
                "INSERT INTO files (id, original_name, uploader_username, size_bytes, channel_id, created_at, file_extension) VALUES (?, ?, ?, ?, ?, ?, ?)"@,
            values: seq![
                SqlView::Text(self.file_id),
                SqlView::Text(self.original_name),
                SqlView::Text(uploader),
                SqlView::Integer(self.size as i64),
                SqlView::Text(channel_id),
                SqlView::Integer(now),
                match self.extension {
                    Some(e) => SqlView::Text(e),
                    None => SqlView::Null,
                },
            ],
        }
    }

    /// The message that tells a channel of the file.
    pub open spec fn announcement(
        self,
        user: AuthUser,
        channel_id: Seq<char>,
        channel: ChannelView,
        now: i64,
    ) -> MessageView {
        MessageView {
            user: user.0@,
            icon: user.1@,
            content: user.0@ + " uploaded a file: "@ + self.original_name,
            timestamp: now,
            channel_id,
            channel_name: channel.name,
            channel_icon: channel.icon,
            message_type: "file"@,
            file_name: Some(self.original_name),
            file_extension: self.extension,
            file_icon: Some(file_icon(self.extension)),
            file_size_bytes: Some(self.size),
            is_image: Some(image_extension(self.extension)),
            image_preview: None,
            file_id: Some(self.file_id),
            download_url: Some(
                "https://back.reetui.hackclub.app/files/download/"@ + self.file_id,
            ),
            download_progress: Some(0u8),
        }
    }

    /// What is done to tell a channel of the file.
    pub open spec fn announcing(
        self,
        user: AuthUser,
        channel_id: Seq<char>,
        channel: ChannelView,
        now: i64,
    ) -> Seq<EffectView> {
        let message = self.announcement(user, channel_id, channel, now);
        seq![
            EffectView::Cache(CacheView::Push { key: "chat_history:"@ + channel_id, message }),
            EffectView::Cache(CacheView::Publish { topic: "chat:"@ + channel_id, message }),
        ]
    }
}

/// Some extension or none, as a text.
pub fn as_text(extension: &Option<String>) -> (r: Option<&str>)
    ensures
        r.deep_view() == extension.deep_view(),
{
    match extension {
        Some(e) => Some(e.as_str()),
        None => None,
    }
}

impl Upload {
    /// Starts an upload under an identifier.
    pub fn under(id: u128) -> (r: Upload)
        ensures
            r.deep_view() == empty_upload(id),
    {
        Upload {
            file_id: uuid_text(id),
            original_name: "unknown".to_string(),
            extension: None,
            size: 0,
        }
    }

    /// Starts an upload under a new identifier.
    pub fn start() -> (r: Upload)
        ensures
            exists|id: u128| random_identifier(id) && r.deep_view() == #[trigger] empty_upload(id),
    {
        let id: u128 = random_uuid();
        Upload::under(id)
    }

    /// Takes the name that a field gives the file, if it gives one.
    pub fn name_file(&mut self, name: Option<String>)
        ensures
            final(self).deep_view() == (UploadView {
                original_name: match name {
                    Some(n) => n@,
                    None => old(self).original_name@,
                },
                ..old(self).deep_view()
            }),
            name matches Some(n) ==> final(self).original_name@ == n@,
            name is None ==> final(self).original_name@ == old(self).original_name@,
            final(self).file_id@ == old(self).file_id@,
            final(self).size == old(self).size,
    {
        if let Some(n) = name {
            self.original_name = n;
        }
    }

    /// Takes the number of bytes that were saved.
    pub fn saved(&mut self, size: u64)
        ensures
            final(self).deep_view() == (UploadView { size, ..old(self).deep_view() }),
            final(self).size == size,
            final(self).file_id@ == old(self).file_id@,
            final(self).original_name@ == old(self).original_name@,
    {
        self.size = size;
    }

    /// Takes the extension.
    pub fn set_extension(&mut self, extension: String)
        ensures
            final(self).deep_view() == (UploadView {
                extension: Some(extension@),
                ..old(self).deep_view()
            }),
            final(self).extension is Some && final(self).extension->0@ == extension@,
            final(self).file_id@ == old(self).file_id@,
            final(self).original_name@ == old(self).original_name@,
            final(self).size == old(self).size,
    {
        self.extension = Some(extension);
    }

    /// Takes the bytes of the extension, with a mark in the place of what is malformed.
    pub fn read_extension(&mut self, bytes: &[u8])
        ensures
            final(self).deep_view() == (UploadView {
                extension: Some(lossy_text(bytes@)),
                ..old(self).deep_view()
            }),
    {
        self.set_extension(read_lossy(bytes));
    }

    /// Ends the reading of the fields: the size decides.
    pub fn finish(self) -> (r: UploadEnd)
        ensures
            match r {
                UploadEnd::Empty { status, text } => self.size == 0 && status == Status::BadRequest
                    && text@ == "No file uploaded or file is empty."@,
                UploadEnd::TooLarge { status, text } => self.size > MAX_FILE_SIZE && status
                    == Status::PayloadTooLarge && text@ == "File size exceeds limit of 10 MB"@,
                UploadEnd::Kept(file) => self.deep_view().is_kept() && file.deep_view()
                    == self.deep_view(),
            },
    {
        if self.size == 0 {
            UploadEnd::Empty {
                status: Status::BadRequest,
                text: "No file uploaded or file is empty.".to_string(),
            }
        } else if self.size > MAX_FILE_SIZE {
            UploadEnd::TooLarge {
                status: Status::PayloadTooLarge,
                text: "File size exceeds limit of 10 MB".to_string(),
            }
        } else {
            UploadEnd::Kept(self)
        }
    }

    /// The statement that stores what is known of the file at second `now`.
    pub fn insert_at(&self, uploader: &str, channel_id: &str, now: i64) -> (r: Statement)
        requires
            self.size <= i64::MAX,
        ensures
            r.deep_view() == self.deep_view().insertion(uploader@, channel_id@, now),
    {
        let extension: SqlValue = match &self.extension {
            Some(e) => text_value(e.as_str()),
            None => SqlValue::Null,
        };
        let values: Vec<SqlValue> = vec![
            text_value(self.file_id.as_str()),
            text_value(self.original_name.as_str()),
            text_value(uploader),
            SqlValue::Integer(self.size as i64),
            text_value(channel_id),
            SqlValue::Integer(now),
            extension,
        ];
        assert(values.deep_view() =~= self.deep_view().insertion(
            uploader@,
            channel_id@,
            now,
        ).values);
        statement(
            "INSERT INTO files (id, original_name, uploader_username, size_bytes, channel_id, created_at, file_extension) VALUES (?, ?, ?, ?, ?, ?, ?)",
            values,
        )
    }

    /// The statement that stores what is known of the file.
    pub fn insert(&self, uploader: &str, channel_id: &str) -> (r: Statement)
        requires
            self.deep_view().is_kept(),
        ensures
            exists|now: i64|
                0 <= now <= LATEST_SECOND && r.deep_view()
                    == #[trigger] self.deep_view().insertion(uploader@, channel_id@, now),
    {
        let now: i64 = clock_seconds();
        self.insert_at(uploader, channel_id, now)
    }

    fn message_at(
        &self,
        user: &AuthUser,
        channel_id: &str,
        channel: &Channel,
        now: i64,
    ) -> (r: BroadcastMessage)
        ensures
            r.deep_view() == self.deep_view().announcement(
                *user,
                channel_id@,
                channel.deep_view(),
                now,
            ),
    {
        let mut content = plus(user.0.as_str(), " uploaded a file: ");
        content.append(self.original_name.as_str());
        let icon = get_nerd_font_icon_for_extension(as_text(&self.extension));
        BroadcastMessage {
            user: user.0.clone(),
            icon: user.1.clone(),
            content,
            timestamp: now,
            channel_id: channel_id.to_string(),
            channel_name: channel.name.clone(),
            channel_icon: channel.icon.clone(),
            message_type: "file".to_string(),
            file_name: Some(self.original_name.clone()),
            file_extension: self.extension.clone(),
            file_icon: Some(icon.to_string()),
            file_size_bytes: Some(self.size),
            is_image: Some(is_image(as_text(&self.extension))),
            image_preview: None,
            file_id: Some(self.file_id.clone()),
            download_url: Some(
                plus(
                    "https://back.reetui.hackclub.app/files/download/",
                    self.file_id.as_str(),
                ),
            ),
            download_progress: Some(0),
        }
    }

    /// Tells a channel of the file at second `now`.
    pub fn announce_at(
        &self,
        user: &AuthUser,
        channel_id: &str,
        channel: &Channel,
        now: i64,
    ) -> (r: Vec<Effect>)
        ensures
            r.deep_view() == self.deep_view().announcing(
                *user,
                channel_id@,
                channel.deep_view(),
                now,
            ),
    {
        let message = self.message_at(user, channel_id, channel, now);
        two(
            Effect::Cache(
                CacheCommand::Push { key: history_key(channel_id), message: message.clone() },
            ),
            Effect::Cache(CacheCommand::Publish { topic: channel_topic(channel_id), message }),
        )
    }

    /// Tells a channel of the file.
    pub fn announce(&self, user: &AuthUser, channel_id: &str, channel: &Channel) -> (r: Vec<Effect>)
        ensures
            exists|now: i64|
                0 <= now <= LATEST_SECOND && r.deep_view()
                    == #[trigger] self.deep_view().announcing(
                    *user,
                    channel_id@,
                    channel.deep_view(),
                    now,
                ),
    {
        let now: i64 = clock_seconds();
        self.announce_at(user, channel_id, channel, now)
    }
}

/// Whether `c` can stand in the identifier of a file: a hyphen or a hexadecimal digit.
pub open spec fn plain(c: char) -> bool {
    c == '-' || '0' <= c <= '9' || 'a' <= c <= 'f'
}

/// The identifier of a file is a plain name: it holds neither a dot nor a separator of paths.
pub proof fn lemma_plain_identifier(id: u128)
    ensures
        empty_upload(id).file_id.len() == 36,
        forall|i: int| 0 <= i < 36 ==> plain(#[trigger] empty_upload(id).file_id[i]),
{
    assert forall|i: int| 0 <= i < 36 implies plain(#[trigger] hyphenated(id)[i]) by {
        assert(forall|d: int| 0 <= d < 16 ==> plain(#[trigger] hex_digit(d)));
    }
}

/// What is stored of a file.
#[derive(Debug)]
pub struct FileRecord {
    pub original_name: String,
    pub file_extension: Option<String>,
}

/// The name under which a file is downloaded.
pub open spec fn download_name(name: Seq<char>, extension: Option<Seq<char>>) -> Seq<char> {
    match extension {
        Some(e) => name + "."@ + e,
        None => name,
    }
}

/// A file is downloaded under the name and the extension with which it was uploaded: it is found
/// under the identifier that was stored and announced, and what was stored gives its name.
pub proof fn lemma_upload_then_download(
    upload: UploadView,
    user: AuthUser,
    channel_id: Seq<char>,
    channel: ChannelView,
    now: i64,
    name: Seq<char>,
    extension: Option<Seq<char>>,
)
    requires
        upload.insertion(user.0@, channel_id, now).values[1] == SqlView::Text(name),
        upload.insertion(user.0@, channel_id, now).values[6] == match extension {
            Some(e) => SqlView::Text(e),
            None => SqlView::Null,
        },
    ensures
        file_query(upload.file_id).values[0] == upload.insertion(
            user.0@,
            channel_id,
            now,
        ).values[0],
        name == upload.original_name,
        extension == upload.extension,
        download_name(name, extension) == download_name(upload.original_name, upload.extension),
        upload.extension matches Some(e) ==> download_name(name, extension) == upload.original_name
            + "."@ + e,
        upload.extension is None ==> download_name(name, extension) == upload.original_name,
        ({
            let message = upload.announcement(user, channel_id, channel, now);
            &&& message.file_id == Some(upload.file_id)
            &&& message.file_name == Some(name)
            &&& message.file_extension == extension
        }),
{
}

/// The look-up of a file.
pub open spec fn file_query(file_id: Seq<char>) -> StatementView {
    StatementView {
        sql: "SELECT original_name, file_extension FROM files WHERE id = ?"@,
        values: seq![SqlView::Text(file_id)],
    }
}

/// The look-up of a file.
pub fn find_file(file_id: &str) -> (r: Statement)
    ensures
        r.deep_view() == file_query(file_id@),
{
    statement1("SELECT original_name, file_extension FROM files WHERE id = ?", text_value(file_id))
}

/// A file that is sent to a client.
#[derive(Debug)]
pub struct FileDownload {
    pub filename: String,
}

/// Answers a request for a file, given what is stored of it, or the cause for which it could not be
/// looked up.
pub fn download_file(found: Result<Option<FileRecord>, String>) -> (r: Result<
    FileDownload,
    (Status, String),
>)
    ensures
        match found {
            Err(cause) => r matches Err((status, text)) && status == Status::InternalServerError
                && text@ == Stage::QueryMetadata.complaint() + cause@,
            Ok(None) => r matches Err((status, text)) && status == Status::NotFound && text@
                == "File not found."@,
            Ok(Some(record)) => r matches Ok(file) && file.filename@ == download_name(
                record.original_name@,
                record.file_extension.deep_view(),
            ) && file.filename@ == match record.file_extension {
                Some(e) => record.original_name@ + "."@ + e@,
                None => record.original_name@,
            },
        },
{
    match found {
        Err(cause) => Err(Stage::QueryMetadata.failure(cause.as_str())),
        Ok(None) => Err((Status::NotFound, "File not found.".to_string())),
        Ok(Some(record)) => {
            let mut filename = record.original_name;
            if let Some(e) = record.file_extension {
                filename.append(".");
                filename.append(e.as_str());
            }
            Ok(FileDownload { filename })
        },
    }
}

impl FileDownload {
    /// The media type of the file, by its name. Of a name in which platforms find different
    /// extensions nothing is stated.
    pub fn content_type(&self) -> (r: String)
        ensures
            portable_name(self.filename@) ==> r@ == media_type(self.filename@),
    {
        guess_media_type(self.filename.as_str())
    }

    /// The header that gives the file its name.
    pub fn content_disposition(&self) -> (r: String)
        ensures
            r@ == "attachment; filename=\""@ + self.filename@ + "\""@,
    {
        let mut r = plus("attachment; filename=\"", self.filename.as_str());
        r.append("\"");
        r
    }
}

} // verus!
