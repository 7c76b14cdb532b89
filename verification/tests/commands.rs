use os_cli::commands::{
    document_mime, document_mime_for_path, find_user_id, is_hidden, is_text_extension, mime_for_extension,
    mime_from_extension, plan_push, plan_push_for_path, project_slug, task_marker, PushKind, UserEntry, UserLookupError,
};

#[test]
fn slug_strips_at_prefix() {
    let slug = project_slug("@brownells");
    assert_eq!(slug, "brownells");
}

#[test]
fn slug_without_prefix_unchanged() {
    let slug = project_slug("brownells");
    assert_eq!(slug, "brownells");
}

#[test]
fn slug_strips_every_leading_at() {
    assert_eq!(project_slug("@@acme"), "acme");
    assert_eq!(project_slug("a@b"), "a@b");
    assert_eq!(project_slug(""), "");
}

#[test]
fn mime_detection() {
    assert_eq!(mime_from_extension("spec.pdf"), "application/pdf");
    assert_eq!(mime_from_extension("photo.png"), "image/png");
    assert_eq!(mime_from_extension("unknown.xyz"), "application/octet-stream");
}

#[test]
fn mime_for_every_known_extension() {
    assert_eq!(
        mime_for_extension(Some("docx")),
        "application/vnd.openxmlformats-officedocument.wordprocessingml.document"
    );
    assert_eq!(
        mime_for_extension(Some("xlsx")),
        "application/vnd.openxmlformats-officedocument.spreadsheetml.sheet"
    );
    assert_eq!(mime_for_extension(Some("jpg")), "image/jpeg");
    assert_eq!(mime_for_extension(Some("jpeg")), "image/jpeg");
    assert_eq!(mime_for_extension(Some("zip")), "application/zip");
    assert_eq!(mime_for_extension(Some("csv")), "text/csv");
    assert_eq!(mime_for_extension(None), "application/octet-stream");
    assert_eq!(mime_from_extension("README"), "application/octet-stream");
}

#[test]
fn document_mime_of_project_uploads() {
    assert_eq!(document_mime(Some("pdf")), "application/pdf");
    assert_eq!(document_mime(Some("jpeg")), "image/jpeg");
    assert_eq!(document_mime(Some("docx")), "application/octet-stream");
    assert_eq!(document_mime(None), "application/octet-stream");
}

#[test]
fn text_extensions() {
    for e in ["md", "txt", "csv", "json", "yaml", "yml", "toml"] {
        assert!(is_text_extension(Some(e)));
    }
    assert!(!is_text_extension(Some("pdf")));
    assert!(!is_text_extension(Some("MD")));
    assert!(!is_text_extension(None));
}

#[test]
fn task_markers() {
    assert_eq!(task_marker("done"), "✓");
    assert_eq!(task_marker("in_progress"), "▲");
    assert_eq!(task_marker("open"), "○");
}

#[test]
fn task_marker_unknown_status() {
    assert_eq!(task_marker("blocked"), "○");
}

#[test]
fn format_user_row() {
    let line = os_cli::commands::format_user_row("a@b.com", "Alice", "admin", "2026-03-21");
    assert!(line.contains("a@b.com"));
    assert!(line.contains("Alice"));
    assert!(line.contains("admin"));
}

#[test]
fn user_row_columns() {
    let line = os_cli::commands::format_user_row("a@b.com", "Alice", "admin", "2026-03-21");
    assert_eq!(line, format!("{:<28} {:<16} {:<8} {}", "a@b.com", "Alice", "admin", "2026-03-21"));
    let long = "someone.with.a.very.long.address@example.com";
    assert_eq!(os_cli::commands::format_user_row(long, "B", "r", "d"), format!("{:<28} {:<16} {:<8} {}", long, "B", "r", "d"));
}

fn user(id: Option<&str>, email: Option<&str>) -> UserEntry {
    UserEntry { id: id.map(|s| s.to_string()), email: email.map(|s| s.to_string()) }
}

#[test]
fn find_user_by_email() {
    let users = vec![user(Some("1"), Some("a@x.com")), user(Some("2"), Some("b@x.com")), user(Some("3"), Some("b@x.com"))];
    assert_eq!(find_user_id(&users, "b@x.com").unwrap(), "2");
}

#[test]
fn find_user_not_found() {
    let users = vec![user(Some("1"), Some("a@x.com")), user(Some("2"), None)];
    match find_user_id(&users, "c@x.com") {
        Err(UserLookupError::NotFound { email }) => assert_eq!(email, "c@x.com"),
        other => panic!("unexpected {:?}", other),
    }
}

#[test]
fn find_user_missing_id() {
    let users = vec![user(None, Some("a@x.com")), user(Some("2"), Some("a@x.com"))];
    assert!(matches!(find_user_id(&users, "a@x.com"), Err(UserLookupError::MissingId)));
}

#[test]
fn push_plan_for_text_file() {
    let p = plan_push(Some("notes.md".to_string()), Some("notes".to_string()), Some("md".to_string()), None);
    assert_eq!(p.file_name, "notes.md");
    assert_eq!(p.file_slug, "notes");
    assert_eq!(p.category, "other");
    assert!(matches!(p.kind, PushKind::Text));
}

#[test]
fn push_plan_for_document() {
    let p = plan_push(Some("deck.pdf".to_string()), Some("deck".to_string()), Some("pdf".to_string()), Some("sales"));
    assert_eq!(p.category, "sales");
    match p.kind {
        PushKind::Document { mime } => assert_eq!(mime, "application/pdf"),
        PushKind::Text => panic!("a pdf is not pushed as text"),
    }
}

#[test]
fn push_plan_without_names() {
    let p = plan_push(None, None, None, None);
    assert_eq!(p.file_name, "unnamed");
    assert_eq!(p.file_slug, "unnamed");
    assert!(matches!(p.kind, PushKind::Document { .. }));
}

#[test]
fn hidden_components() {
    let parts = |v: &[&str]| v.iter().map(|s| s.to_string()).collect::<Vec<String>>();
    assert!(is_hidden(&parts(&["/", "home", ".git", "config"])));
    assert!(is_hidden(&parts(&[".env"])));
    assert!(!is_hidden(&parts(&["/", "home", "notes.md"])));
    assert!(!is_hidden(&parts(&[])));
}

#[test]
fn mime_of_names_without_a_proper_extension() {
    assert_eq!(mime_from_extension(".bashrc"), "application/octet-stream");
    assert_eq!(mime_from_extension("archive.tar.gz"), "application/octet-stream");
    assert_eq!(mime_from_extension("report.tar.pdf"), "application/pdf");
    assert_eq!(mime_from_extension("docs/spec.pdf"), "application/pdf");
}

#[test]
fn push_plan_from_a_path() {
    let p = plan_push_for_path("notes.md", None);
    assert_eq!(p.file_name, "notes.md");
    assert_eq!(p.file_slug, "notes");
    assert_eq!(p.category, "other");
    assert!(matches!(p.kind, PushKind::Text));

    let p = plan_push_for_path("deck.pdf", Some("sales"));
    assert_eq!(p.file_name, "deck.pdf");
    assert_eq!(p.file_slug, "deck");
    assert_eq!(p.category, "sales");
    match p.kind {
        PushKind::Document { mime } => assert_eq!(mime, "application/pdf"),
        PushKind::Text => panic!("a pdf is a document"),
    }

    let p = plan_push_for_path("README", None);
    assert_eq!(p.file_name, "README");
    assert_eq!(p.file_slug, "README");
    match p.kind {
        PushKind::Document { mime } => assert_eq!(mime, "application/octet-stream"),
        PushKind::Text => panic!("no extension is not text"),
    }

    let p = plan_push_for_path("docs/brief.txt", None);
    assert_eq!(p.file_name, "brief.txt");
    assert_eq!(p.file_slug, "brief");
    assert!(matches!(p.kind, PushKind::Text));
}

#[test]
fn document_mime_from_a_path() {
    assert_eq!(document_mime_for_path("scan.jpeg"), "image/jpeg");
    assert_eq!(document_mime_for_path("photo.png"), "image/png");
    assert_eq!(document_mime_for_path("letter.docx"), "application/octet-stream");
    assert_eq!(document_mime_for_path("Makefile"), "application/octet-stream");
}

#[test]
fn push_plan_for_files_found_in_a_directory() {
    let p = plan_push_for_path("docs/specs/api.v2.md", None);
    assert_eq!(p.file_name, "api.v2.md");
    assert_eq!(p.file_slug, "api.v2");
    assert!(matches!(p.kind, PushKind::Text));

    let p = plan_push_for_path("/home/me/proj/deck.pdf", Some("sales"));
    assert_eq!(p.file_name, "deck.pdf");
    assert_eq!(p.file_slug, "deck");
    match p.kind {
        PushKind::Document { mime } => assert_eq!(mime, "application/pdf"),
        PushKind::Text => panic!("a pdf is a document"),
    }

    let p = plan_push_for_path("notes/.env", None);
    assert_eq!(p.file_name, ".env");
    assert_eq!(p.file_slug, ".env");
    assert!(matches!(p.kind, PushKind::Document { .. }));

    assert_eq!(document_mime_for_path("scans/2024/receipt.png"), "image/png");
    assert_eq!(document_mime_for_path("a/b/archive.tar.zip"), "application/zip");
    assert_eq!(mime_from_extension("reports/q1.xlsx"), "application/vnd.openxmlformats-officedocument.spreadsheetml.sheet");
}
