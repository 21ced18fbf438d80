//! Document uploads. The upload is validated — declared content type on the
//! allow-list, file name present — before anything is written: a rejected
//! upload leaves the store untouched. Writing the blob itself is the
//! caller's business; `delete` is told whether the backing file was found.
use vstd::prelude::*;
use crate::error::AppError;
use crate::date::Timestamp;
use crate::models::document::{Document, NewDocument};
use crate::repositories::document_repository::DocumentRepository;
use crate::store::{document_id_of, has_id, row_with_id, Database};

verus! {

/// The content types an upload may declare.
pub open spec fn spec_allowed_content_type(ct: Seq<char>) -> bool {
    ||| ct == "image/png"@
    ||| ct == "image/jpeg"@
    ||| ct == "image/webp"@
    ||| ct == "application/pdf"@
}

/// An upload is accepted exactly when it declares an allowed content type
/// and carries a file name.
pub open spec fn spec_upload_valid(content_type: Option<String>, file_name: Option<String>) -> bool {
    &&& content_type matches Some(ct) && spec_allowed_content_type(ct@)
    &&& file_name is Some
}

pub struct DocumentService;

impl DocumentService {
    /// Whether the declared content type is on the allow-list.
    pub fn content_type_allowed(ct: &String) -> (r: bool)
        ensures
            r == spec_allowed_content_type(ct@),
    {
        let png: String = "image/png".to_owned();
        let jpeg: String = "image/jpeg".to_owned();
        let webp: String = "image/webp".to_owned();
        let pdf: String = "application/pdf".to_owned();
        ct.eq(&png) || ct.eq(&jpeg) || ct.eq(&webp) || ct.eq(&pdf)
    }

    /// Validates an upload and inserts its document row. Rejections are
    /// `BadRequest` and write nothing; an accepted upload inserts one row
    /// under a fresh random id, stamped with the given upload time.
    pub fn create(
        db: &mut Database,
        teacher_id: i32,
        content_type: Option<String>,
        file_name: Option<String>,
        uploaded_at: Timestamp,
    ) -> (r: Result<Document, AppError>)
        requires
            old(db).wf(),
        ensures
            final(db).wf(),
            Database::only_documents_changed(*old(db), *final(db)),
            r matches Err(_) ==> *final(db) == *old(db),
            content_type is None ==> (r matches Err(e) && e matches AppError::BadRequest(m) && m@
                == "Content type is missing"@),
            content_type matches Some(ct) && !spec_allowed_content_type(ct@) ==> (
            r matches Err(e) && e matches AppError::BadRequest(m) && m@
                == "Unsupported file type. Only png/jpeg/webp/pdf allowed."@),
            content_type matches Some(ct) && spec_allowed_content_type(ct@) && file_name is None
                ==> (r matches Err(e) && e matches AppError::BadRequest(m) && m@
                == "Failed to determine file_name"@),
            spec_upload_valid(content_type, file_name) ==> ({
                &&& r matches Ok(d) ==> ({
                    &&& d.name == file_name->Some_0
                    &&& d.teacher_id == teacher_id
                    &&& d.uploaded_at == uploaded_at
                    &&& !has_id(old(db).documents@, document_id_of(), d.id as int)
                    &&& final(db).documents@ == old(db).documents@.push(d)
                })
                &&& r matches Err(e) ==> e is Database
            }),
            r is Ok ==> spec_upload_valid(content_type, file_name),
    {
        let ct = match content_type {
            Some(ct) => ct,
            None => {
                return Err(AppError::BadRequest("Content type is missing".to_owned()));
            },
        };
        if !Self::content_type_allowed(&ct) {
            return Err(
                AppError::BadRequest(
                    "Unsupported file type. Only png/jpeg/webp/pdf allowed.".to_owned(),
                ),
            );
        }
        let name = match file_name {
            Some(name) => name,
            None => {
                return Err(AppError::BadRequest("Failed to determine file_name".to_owned()));
            },
        };
        let new_document = NewDocument { name, teacher_id };
        DocumentRepository::create(db, new_document, uploaded_at)
    }

    /// The document with the given id.
    pub fn get(db: &Database, document_id: u128) -> (r: Result<Document, AppError>)
        requires
            db.wf(),
        ensures
            r is Ok <==> has_id(db.documents@, document_id_of(), document_id as int),
            r matches Ok(d) ==> d == row_with_id(db.documents@, document_id_of(), document_id as int),
            r matches Err(e) ==> e matches AppError::NotFound(_),
    {
        DocumentRepository::get(db, document_id)
    }

    /// Every document of the given teacher.
    pub fn get_by_teacher_id(db: &Database, teacher_id: i32) -> (r: Result<Vec<Document>, AppError>)
        requires
            db.wf(),
        ensures
            r matches Ok(ds) && ds@ == db.documents@.filter(|d: Document| d.teacher_id == teacher_id),
    {
        DocumentRepository::get_by_teacher_id(db, teacher_id)
    }

    /// Deletes a document's row, but only when its backing file was found
    /// and removed — `file_present` is what the file storage reported. A row
    /// whose file is gone stays, and the call reports `false`, as the
    /// missing-file read does.
    pub fn delete(db: &mut Database, document_id: u128, file_present: bool) -> (r: Result<
        bool,
        AppError,
    >)
        requires
            old(db).wf(),
        ensures
            final(db).wf(),
            Database::only_documents_changed(*old(db), *final(db)),
            !has_id(old(db).documents@, document_id_of(), document_id as int) ==> (
            r matches Err(e) && e matches AppError::NotFound(_) && *final(db) == *old(db)),
            has_id(old(db).documents@, document_id_of(), document_id as int) && !file_present ==> (
            r matches Ok(deleted) && deleted == false && *final(db) == *old(db)),
            has_id(old(db).documents@, document_id_of(), document_id as int) && file_present ==> (
            r matches Ok(deleted) && deleted == true && final(db).documents@ == old(
                db,
            ).documents@.filter(|d: Document| d.id != document_id)),
    {
        let document = DocumentRepository::get(db, document_id)?;
        if file_present {
            let count = DocumentRepository::delete(db, document_id)?;
            Ok(count > 0)
        } else {
            Ok(false)
        }
    }
}

} // verus!
