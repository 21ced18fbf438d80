//! The documents table. Unlike the serial-id tables, document ids are random
//! 128-bit values drawn through the `uuid` crate; `insert` takes the id as an
//! argument and carries the exact contract, while `create` draws a fresh one.
use vstd::prelude::*;
use crate::error::AppError;
use crate::models::document::{Document, NewDocument};
use crate::date::Timestamp;
use crate::store::{
    document_id_of, has_id, lemma_filter_all, lemma_filter_drops_some, lemma_filter_keeps_unique,
    lemma_filter_push, lemma_row_with_id, row_with_id, Database,
};

verus! {

/// Relies on `uuid::Uuid::new_v4`: a random version-4 UUID. Nothing can be
/// promised of a random value.
#[verifier::external_body]
fn fresh_document_id() -> u128 {
    uuid::Uuid::new_v4().as_u128()
}

pub struct DocumentRepository;

impl DocumentRepository {
    /// Inserts a document row under the given id; refused when the id is
    /// already taken, as the store's uniqueness constraint would refuse it.
    #[verifier::loop_isolation(false)]
    pub fn insert(
        db: &mut Database,
        new_document: NewDocument,
        document_id: u128,
        uploaded_at: Timestamp,
    ) -> (r: Result<Document, AppError>)
        requires
            old(db).wf(),
        ensures
            final(db).wf(),
            Database::only_documents_changed(*old(db), *final(db)),
            r is Ok <==> !has_id(old(db).documents@, document_id_of(), document_id as int),
            r matches Ok(d) ==> ({
                &&& d == (Document {
                    id: document_id,
                    name: new_document.name,
                    uploaded_at,
                    teacher_id: new_document.teacher_id,
                })
                &&& final(db).documents@ == old(db).documents@.push(d)
            }),
            r matches Err(e) ==> e is Database && *final(db) == *old(db),
    {
        let n = db.documents.len();
        let mut k: usize = 0;
        while k < n
            invariant
                k <= n,
                n == db.documents@.len(),
                *db == *old(db),
                forall|i: int| 0 <= i < k ==> (#[trigger] db.documents@[i]).id != document_id,
            decreases n - k,
        {
            if db.documents[k].id == document_id {
                return Err(AppError::Database("documents: id already taken".to_owned()));
            }
            k += 1;
        }
        let row = Document {
            id: document_id,
            name: new_document.name,
            uploaded_at,
            teacher_id: new_document.teacher_id,
        };
        let result = row.clone();
        db.documents.push(row);
        Ok(result)
    }

    /// Inserts a document row under a freshly drawn random id, stamped with
    /// the given upload time. Fails only if the drawn id is already taken.
    pub fn create(db: &mut Database, new_document: NewDocument, uploaded_at: Timestamp) -> (r:
        Result<Document, AppError>)
        requires
            old(db).wf(),
        ensures
            final(db).wf(),
            Database::only_documents_changed(*old(db), *final(db)),
            r matches Ok(d) ==> ({
                &&& d.name == new_document.name
                &&& d.uploaded_at == uploaded_at
                &&& d.teacher_id == new_document.teacher_id
                &&& !has_id(old(db).documents@, document_id_of(), d.id as int)
                &&& final(db).documents@ == old(db).documents@.push(d)
            }),
            r matches Err(e) ==> e is Database && *final(db) == *old(db),
    {
        let document_id = fresh_document_id();
        Self::insert(db, new_document, document_id, uploaded_at)
    }

    /// The document with the given id, if the table has it.
    pub fn find(db: &Database, document_id: u128) -> (r: Option<Document>)
        requires
            db.wf(),
        ensures
            r is Some <==> has_id(db.documents@, document_id_of(), document_id as int),
            r matches Some(d) ==> d == row_with_id(
                db.documents@,
                document_id_of(),
                document_id as int,
            ),
    {
        let n = db.documents.len();
        let mut k: usize = 0;
        while k < n
            invariant
                k <= n,
                n == db.documents@.len(),
                db.wf(),
                forall|i: int| 0 <= i < k ==> (#[trigger] db.documents@[i]).id != document_id,
            decreases n - k,
        {
            if db.documents[k].id == document_id {
                let d = db.documents[k].clone();
                proof {
                    lemma_row_with_id(db.documents@, document_id_of(), document_id as int, k as int);
                }
                return Some(d);
            }
            k += 1;
        }
        None
    }

    /// The document with the given id, or `NotFound`.
    pub fn get(db: &Database, document_id: u128) -> (r: Result<Document, AppError>)
        requires
            db.wf(),
        ensures
            r is Ok <==> has_id(db.documents@, document_id_of(), document_id as int),
            r matches Ok(d) ==> d == row_with_id(db.documents@, document_id_of(), document_id as int),
            r matches Err(e) ==> e matches AppError::NotFound(_),
    {
        match Self::find(db, document_id) {
            Some(d) => Ok(d),
            None => Err(AppError::NotFound("Document not found".to_owned())),
        }
    }

    /// Every document of the given teacher, in table order.
    #[verifier::loop_isolation(false)]
    pub fn get_by_teacher_id(db: &Database, id: i32) -> (r: Result<Vec<Document>, AppError>)
        requires
            db.wf(),
        ensures
            r matches Ok(ds) && ds@ == db.documents@.filter(|d: Document| d.teacher_id == id),
    {
        let ghost keep = |d: Document| d.teacher_id == id;
        let n = db.documents.len();
        let mut found: Vec<Document> = Vec::new();
        let mut k: usize = 0;
        while k < n
            invariant
                k <= n,
                n == db.documents@.len(),
                found@ == db.documents@.take(k as int).filter(keep),
            decreases n - k,
        {
            if db.documents[k].teacher_id == id {
                found.push(db.documents[k].clone());
            }
            proof {
                let s = db.documents@;
                let x = s[k as int];
                lemma_filter_push(s.take(k as int), keep, x);
                assert(s.take(k as int + 1) =~= s.take(k as int).push(x));
            }
            k += 1;
        }
        proof {
            assert(db.documents@.take(n as int) =~= db.documents@);
        }
        Ok(found)
    }

    /// Removes the document with that id; the count of removed rows.
    #[verifier::loop_isolation(false)]
    pub fn delete(db: &mut Database, document_id: u128) -> (r: Result<usize, AppError>)
        requires
            old(db).wf(),
        ensures
            final(db).wf(),
            Database::only_documents_changed(*old(db), *final(db)),
            final(db).documents@ == old(db).documents@.filter(|d: Document| d.id != document_id),
            r matches Ok(cnt) && ((cnt > 0) <==> has_id(
                old(db).documents@,
                document_id_of(),
                document_id as int,
            )),
    {
        let ghost pred = |d: Document| d.id != document_id;
        let n = db.documents.len();
        let mut kept: Vec<Document> = Vec::new();
        let mut k: usize = 0;
        while k < n
            invariant
                k <= n,
                n == db.documents@.len(),
                *db == *old(db),
                kept@ == db.documents@.take(k as int).filter(pred),
            decreases n - k,
        {
            if db.documents[k].id != document_id {
                kept.push(db.documents[k].clone());
            }
            proof {
                let s = db.documents@;
                let x = s[k as int];
                lemma_filter_push(s.take(k as int), pred, x);
                assert(s.take(k as int + 1) =~= s.take(k as int).push(x));
            }
            k += 1;
        }
        proof {
            broadcast use Seq::lemma_filter_len;

            assert(db.documents@.take(n as int) =~= db.documents@);
            if has_id(db.documents@, document_id_of(), document_id as int) {
                let i = crate::store::idx_with_id(db.documents@, document_id_of(), document_id as int);
                assert(0 <= i < db.documents@.len() && db.documents@[i].id == document_id);
                lemma_filter_drops_some(db.documents@, pred, i);
            } else {
                assert forall|i: int| 0 <= i < db.documents@.len() implies pred(
                    #[trigger] db.documents@[i],
                ) by {
                    assert(!has_id(db.documents@, document_id_of(), document_id as int));
                }
                lemma_filter_all(db.documents@, pred);
            }
            lemma_filter_keeps_unique(db.documents@, pred, document_id_of());
        }
        let removed = n - kept.len();
        db.documents = kept;
        Ok(removed)
    }
}

} // verus!
