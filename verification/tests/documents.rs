//! Document upload validation, storage rows, and the compensating delete.
use school_schedule::date::Timestamp;
use school_schedule::error::AppError;
use school_schedule::models::document::Document;
use school_schedule::services::document_service::DocumentService;
use school_schedule::store::Database;

fn now() -> Timestamp {
    Timestamp { micros: 1_700_000_000_000_000 }
}

#[test]
fn upload_accepts_each_allowed_content_type() {
    for ct in ["image/png", "image/jpeg", "image/webp", "application/pdf"] {
        let mut db = Database::new();
        let doc = DocumentService::create(
            &mut db,
            1,
            Some(ct.to_string()),
            Some("scan.pdf".to_string()),
            now(),
        )
        .unwrap();
        assert_eq!(doc.name, "scan.pdf");
        assert_eq!(doc.teacher_id, 1);
        assert_eq!(doc.uploaded_at, now());
    }
}

#[test]
fn upload_rejects_missing_content_type() {
    let mut db = Database::new();
    let err = DocumentService::create(&mut db, 1, None, Some("a.pdf".to_string()), now())
        .unwrap_err();
    match err {
        AppError::BadRequest(msg) => assert_eq!(msg, "Content type is missing"),
        other => panic!("expected BadRequest, got status {}", other.status_code()),
    }
    assert!(DocumentService::get_by_teacher_id(&db, 1).unwrap().is_empty());
}

#[test]
fn upload_rejects_disallowed_content_type_and_writes_nothing() {
    for ct in ["text/html", "image/gif", "application/zip", ""] {
        let mut db = Database::new();
        let err = DocumentService::create(
            &mut db,
            1,
            Some(ct.to_string()),
            Some("a.pdf".to_string()),
            now(),
        )
        .unwrap_err();
        match err {
            AppError::BadRequest(msg) => {
                assert_eq!(msg, "Unsupported file type. Only png/jpeg/webp/pdf allowed.")
            },
            other => panic!("expected BadRequest, got status {}", other.status_code()),
        }
        assert!(DocumentService::get_by_teacher_id(&db, 1).unwrap().is_empty());
    }
}

#[test]
fn upload_rejects_missing_file_name() {
    let mut db = Database::new();
    let err = DocumentService::create(&mut db, 1, Some("image/png".to_string()), None, now())
        .unwrap_err();
    match err {
        AppError::BadRequest(msg) => assert_eq!(msg, "Failed to determine file_name"),
        other => panic!("expected BadRequest, got status {}", other.status_code()),
    }
    assert!(DocumentService::get_by_teacher_id(&db, 1).unwrap().is_empty());
}

#[test]
fn documents_are_listed_per_teacher_and_fetched_by_id() {
    let mut db = Database::new();
    let first = DocumentService::create(
        &mut db,
        1,
        Some("image/png".to_string()),
        Some("photo.png".to_string()),
        now(),
    )
    .unwrap();
    DocumentService::create(
        &mut db,
        2,
        Some("application/pdf".to_string()),
        Some("notes.pdf".to_string()),
        now(),
    )
    .unwrap();
    let of_first_teacher = DocumentService::get_by_teacher_id(&db, 1).unwrap();
    assert_eq!(of_first_teacher.len(), 1);
    assert_eq!(of_first_teacher[0].name, "photo.png");

    let fetched = DocumentService::get(&db, first.id).unwrap();
    assert_eq!(fetched, first);
}

#[test]
fn delete_removes_row_only_when_file_was_found() {
    let mut db = Database::new();
    let doc = DocumentService::create(
        &mut db,
        1,
        Some("image/webp".to_string()),
        Some("art.webp".to_string()),
        now(),
    )
    .unwrap();

    // The backing file is missing: nothing is deleted, and that is not an
    // error.
    assert!(!DocumentService::delete(&mut db, doc.id, false).unwrap());
    assert!(DocumentService::get(&db, doc.id).is_ok());

    // The backing file was found and removed: the row goes too.
    assert!(DocumentService::delete(&mut db, doc.id, true).unwrap());
    assert!(matches!(DocumentService::get(&db, doc.id), Err(AppError::NotFound(_))));

    // Deleting a document that never existed is NotFound.
    assert!(matches!(
        DocumentService::delete(&mut db, 424242, true),
        Err(AppError::NotFound(_))
    ));
}

#[test]
fn file_extension_takes_the_suffix_after_the_last_dot() {
    let cases = [
        ("scan.pdf", "pdf"),
        ("archive.tar.gz", "gz"),
        ("noextension", "noextension"),
        ("trailing.", ""),
        (".hidden", "hidden"),
        ("", ""),
    ];
    for (name, expected) in cases {
        let doc = Document {
            id: 7,
            name: name.to_string(),
            uploaded_at: now(),
            teacher_id: 1,
        };
        assert_eq!(doc.file_extension().unwrap(), expected);
    }
}
