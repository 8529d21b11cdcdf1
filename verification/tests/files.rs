use chat_server::auth::AuthUser;
use chat_server::cache::CacheCommand;
use chat_server::effect::Effect;
use chat_server::files::{
    download_file, field_kind, find_file, get_nerd_font_icon_for_extension, is_image, named_field,
    FieldKind, FileRecord, Stage, Upload, UploadEnd, MAX_FILE_SIZE, UPLOADS_DIR,
};
use chat_server::models::Channel;
use chat_server::status::Status;

fn bob() -> AuthUser {
    AuthUser("bob".to_string(), "b".to_string())
}

fn home() -> Channel {
    Channel { id: "home".to_string(), name: "Home".to_string(), icon: "h".to_string() }
}

#[test]
fn icons_stand_for_extensions() {
    let table = [
        ("pdf", "\u{f1c1}"),
        ("doc", "\u{f1c2}"),
        ("docx", "\u{f1c2}"),
        ("xls", "\u{f1c3}"),
        ("xlsx", "\u{f1c3}"),
        ("ppt", "\u{f1c4}"),
        ("pptx", "\u{f1c4}"),
        ("zip", "\u{f1c6}"),
        ("tar", "\u{f1c6}"),
        ("gz", "\u{f1c6}"),
        ("rar", "\u{f1c6}"),
        ("jpg", "\u{f1c5}"),
        ("jpeg", "\u{f1c5}"),
        ("png", "\u{f1c5}"),
        ("gif", "\u{f1c5}"),
        ("bmp", "\u{f1c5}"),
        ("svg", "\u{f1c5}"),
        ("mp3", "\u{f1c7}"),
        ("wav", "\u{f1c7}"),
        ("ogg", "\u{f1c7}"),
        ("mp4", "\u{f1c8}"),
        ("mkv", "\u{f1c8}"),
        ("avi", "\u{f1c8}"),
        ("txt", "\u{f0f6}"),
        ("json", "\u{e60b}"),
        ("xml", "\u{f05c0}"),
        ("html", "\u{e736}"),
        ("htm", "\u{e736}"),
        ("css", "\u{e6b8}"),
        ("js", "\u{f2ef}"),
        ("jsx", "\u{f2ef}"),
        ("ts", "\u{e69d}"),
        ("tsx", "\u{e69d}"),
        ("py", "\u{ed1b}"),
        ("rs", "\u{f1617}"),
        ("go", "\u{f07d3}"),
        ("java", "\u{edaf}"),
        ("c", "\u{e61e}"),
        ("cpp", "\u{e61e}"),
        ("h", "\u{e61e}"),
        ("sh", "\u{e760}"),
        ("bash", "\u{e760}"),
        ("md", "\u{e73e}"),
        ("PDF", "\u{f15b}"),
        ("", "\u{f15b}"),
        ("exe", "\u{f15b}"),
    ];
    for (extension, icon) in table {
        assert_eq!(get_nerd_font_icon_for_extension(Some(extension)), icon, "{}", extension);
        assert_eq!(is_image(Some(extension)), icon == "\u{f1c5}", "{}", extension);
    }
    assert_eq!(get_nerd_font_icon_for_extension(None), "\u{f15b}");
    assert!(!is_image(None));
}

#[test]
fn fields_are_told_apart() {
    match field_kind(Some("form-data; name=\"file\"; filename=\"cat.tar.gz\"")) {
        FieldKind::File { name } => assert_eq!(name, Some("cat.tar".to_string())),
        other => panic!("{:?}", other),
    }
    match field_kind(Some("form-data; name=\"file\"")) {
        FieldKind::File { name } => assert_eq!(name, None),
        other => panic!("{:?}", other),
    }
    assert!(matches!(
        field_kind(Some("form-data; name=\"file_extension\"")),
        FieldKind::Extension
    ));
    assert!(matches!(field_kind(Some("form-data; name=\"other\"")), FieldKind::Other));
    assert!(matches!(field_kind(Some("form-data")), FieldKind::Other));
    assert!(matches!(field_kind(None), FieldKind::Other));
    assert!(matches!(named_field(Some("File".to_string()), None), FieldKind::Other));
    assert!(matches!(
        named_field(Some("file".to_string()), Some("x".to_string())),
        FieldKind::File { name: Some(n) } if n == "x"
    ));
}

#[test]
fn uploads_start_empty() {
    let upload = Upload::start();
    assert_eq!(uuid::Uuid::parse_str(upload.file_id.as_str()).unwrap().get_version_num(), 4);
    assert!(upload.file_id.chars().all(|c| c == '-' || c.is_ascii_hexdigit()));
    assert_eq!(upload.file_id.len(), 36);
    assert_eq!(upload.original_name, "unknown");
    assert_eq!(upload.extension, None);
    assert_eq!(upload.size, 0);
    assert_ne!(Upload::start().file_id, Upload::start().file_id);
}

#[test]
fn fields_fill_the_upload() {
    let mut upload = Upload::under(5);
    assert_eq!(upload.file_id, "00000000-0000-0000-0000-000000000005");
    upload.name_file(Some("cat".to_string()));
    upload.name_file(None);
    assert_eq!(upload.original_name, "cat");
    upload.saved(12);
    assert_eq!(upload.size, 12);
    upload.read_extension(b"png");
    assert_eq!(upload.extension, Some("png".to_string()));
    upload.read_extension(b"p\xFFg");
    assert_eq!(upload.extension, Some("p\u{fffd}g".to_string()));
    upload.set_extension("txt".to_string());
    assert_eq!(upload.extension, Some("txt".to_string()));
}

fn sized(size: u64) -> UploadEnd {
    let mut upload = Upload::under(5);
    upload.saved(size);
    upload.finish()
}

#[test]
fn sizes_decide_what_is_kept() {
    assert_eq!(MAX_FILE_SIZE, 10 * 1024 * 1024);
    match sized(0) {
        UploadEnd::Empty { status, text } => {
            assert_eq!(status, Status::BadRequest);
            assert_eq!(text, "No file uploaded or file is empty.");
        }
        _ => panic!("not empty"),
    }
    for size in [MAX_FILE_SIZE + 1, u64::MAX] {
        match sized(size) {
            UploadEnd::TooLarge { status, text } => {
                assert_eq!(status, Status::PayloadTooLarge);
                assert_eq!(text, "File size exceeds limit of 10 MB");
            }
            _ => panic!("not too large"),
        }
    }
    for size in [1, MAX_FILE_SIZE] {
        assert!(matches!(sized(size), UploadEnd::Kept(file) if file.size == size));
    }
}

#[test]
fn files_are_recorded() {
    let mut upload = Upload::under(5);
    upload.saved(12);
    let statement = upload.insert_at("bob", "home", 77);
    assert_eq!(
        statement.sql,
        "INSERT INTO files (id, original_name, uploader_username, size_bytes, channel_id, created_at, file_extension) VALUES (?, ?, ?, ?, ?, ?, ?)"
    );
    assert_eq!(
        format!("{:?}", statement.values),
        "[Text(\"00000000-0000-0000-0000-000000000005\"), Text(\"unknown\"), Text(\"bob\"), Integer(12), Text(\"home\"), Integer(77), Null]"
    );
    upload.set_extension("png".to_string());
    assert_eq!(
        format!("{:?}", upload.insert("bob", "home").values[6]),
        "Text(\"png\")"
    );
}

#[test]
fn files_are_announced() {
    let mut upload = Upload::under(5);
    upload.name_file(Some("cat".to_string()));
    upload.saved(12);
    upload.set_extension("png".to_string());
    let elsewhere = Channel { id: "other".to_string(), ..home() };
    match &upload.announce_at(&bob(), "home", &elsewhere, 77)[..] {
        [Effect::Cache(CacheCommand::Push { key, message }), Effect::Cache(CacheCommand::Publish { topic, message: sent })] =>
        {
            assert_eq!(key, "chat_history:home");
            assert_eq!(topic, "chat:home");
            assert_eq!(format!("{:?}", message), format!("{:?}", sent));
            assert_eq!(message.user, "bob");
            assert_eq!(message.icon, "b");
            assert_eq!(message.content, "bob uploaded a file: cat");
            assert_eq!(message.timestamp, 77);
            assert_eq!(message.channel_id, "home");
            assert_eq!(message.channel_name, "Home");
            assert_eq!(message.channel_icon, "h");
            assert_eq!(message.message_type, "file");
            assert_eq!(message.file_name, Some("cat".to_string()));
            assert_eq!(message.file_extension, Some("png".to_string()));
            assert_eq!(message.file_icon, Some("\u{f1c5}".to_string()));
            assert_eq!(message.file_size_bytes, Some(12));
            assert_eq!(message.is_image, Some(true));
            assert_eq!(message.image_preview, None);
            assert_eq!(
                message.download_url,
                Some("https://back.reetui.hackclub.app/files/download/00000000-0000-0000-0000-000000000005".to_string())
            );
            assert_eq!(message.download_progress, Some(0));
        }
        other => panic!("{:?}", other),
    }
    assert_eq!(upload.announce(&bob(), "home", &home()).len(), 2);
}

#[test]
fn failures_are_explained() {
    let table = [
        (Stage::CreateDirectory, "Failed to create upload directory: x"),
        (Stage::CreateFile, "Failed to create destination file: x"),
        (Stage::WriteFile, "Failed to write file: x"),
        (Stage::ReadExtension, "Failed to read file extension: x"),
        (Stage::RemoveFile, "Failed to remove oversized file: x"),
        (Stage::InsertMetadata, "Failed to insert file metadata: x"),
        (Stage::ConnectRedis, "Failed to connect to Redis: x"),
        (Stage::FindChannel, "Failed to get channel info: x"),
        (Stage::Serialize, "Failed to serialize message: x"),
        (Stage::SaveHistory, "Failed to save message to Redis history: x"),
        (Stage::Publish, "Failed to publish message to Redis: x"),
        (Stage::QueryMetadata, "Failed to query file metadata: x"),
        (Stage::OpenFile, "Failed to open file for download: x"),
    ];
    for (stage, text) in table {
        assert_eq!(stage.failure("x"), (Status::InternalServerError, text.to_string()));
    }
}

fn record(name: &str, extension: Option<&str>) -> FileRecord {
    FileRecord {
        original_name: name.to_string(),
        file_extension: extension.map(|e| e.to_string()),
    }
}

#[test]
fn files_are_downloaded() {
    assert_eq!(UPLOADS_DIR, "uploads");
    assert_eq!(
        find_file("5").sql,
        "SELECT original_name, file_extension FROM files WHERE id = ?"
    );
    let file = download_file(Ok(Some(record("cat", Some("png"))))).unwrap();
    assert_eq!(file.filename, "cat.png");
    assert_eq!(file.content_type(), "image/png");
    assert_eq!(file.content_disposition(), "attachment; filename=\"cat.png\"");
    let file = download_file(Ok(Some(record("cat", None)))).unwrap();
    assert_eq!(file.filename, "cat");
    assert_eq!(file.content_type(), "application/octet-stream");
    let file = download_file(Ok(Some(record("notes", Some("txt"))))).unwrap();
    assert_eq!(file.content_type(), "text/plain");
}

#[test]
fn names_may_look_like_paths() {
    for (name, kind) in [
        ("a\\\\b", "image/png"),
        ("C:b", "image/png"),
        ("x/y", "image/png"),
        ("a:b/c", "image/png"),
    ] {
        let file = download_file(Ok(Some(record(name, Some("png"))))).unwrap();
        assert_eq!(file.content_type(), kind, "{}", name);
    }
    let file = download_file(Ok(Some(record("//host", None)))).unwrap();
    assert_eq!(file.content_type(), "application/octet-stream");
}

#[test]
fn missing_files_are_reported() {
    assert_eq!(
        download_file(Ok(None)).unwrap_err(),
        (Status::NotFound, "File not found.".to_string())
    );
    assert_eq!(
        download_file(Err("disk".to_string())).unwrap_err(),
        (Status::InternalServerError, "Failed to query file metadata: disk".to_string())
    );
}
