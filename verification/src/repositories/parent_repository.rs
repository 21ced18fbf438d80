//! The parents table.
use vstd::prelude::*;
use vstd::pervasive::VecAdditionalExecFns;
use crate::error::AppError;
use crate::models::parent::{NewParent, Parent, UpdateParent};
use crate::store::{
    Database, has_id, idx_with_id, lemma_filter_all, lemma_filter_drops_some,
    lemma_filter_keeps_table_wf, lemma_filter_push, lemma_row_with_id, parent_id_of, row_with_id,
};

verus! {

/// The row `update` leaves behind: fields given as `None` keep their value,
/// and `additional_info` can be set but never cleared.
pub open spec fn spec_apply_parent_update(p: Parent, u: UpdateParent) -> Parent {
    Parent {
        id: p.id,
        name: match u.name {
            Some(n) => n,
            None => p.name,
        },
        additional_info: match u.additional_info {
            Some(a) => Some(a),
            None => p.additional_info,
        },
    }
}

pub struct ParentRepository;

impl ParentRepository {
    /// Inserts a parent row under the next fresh id.
    pub fn create(db: &mut Database, new_parent: NewParent) -> (r: Result<Parent, AppError>)
        requires
            old(db).wf(),
        ensures
            final(db).wf(),
            Database::only_parents_changed(*old(db), *final(db)),
            old(db).next_parent_id < i32::MAX ==> ({
                &&& r matches Ok(p)
                &&& p == (Parent {
                    id: old(db).next_parent_id,
                    name: new_parent.name,
                    additional_info: new_parent.additional_info,
                })
                &&& final(db).parents@ == old(db).parents@.push(p)
                &&& final(db).next_parent_id == old(db).next_parent_id + 1
            }),
            old(db).next_parent_id == i32::MAX ==> (r matches Err(e) && e is Database && *final(db)
                == *old(db)),
    {
        if db.next_parent_id == i32::MAX {
            return Err(AppError::Database("parents: id space exhausted".to_owned()));
        }
        let id = db.next_parent_id;
        let row = Parent { id, name: new_parent.name, additional_info: new_parent.additional_info };
        let result = row.clone();
        db.parents.push(row);
        db.next_parent_id = id + 1;
        Ok(result)
    }

    /// The parent with the given id, if the table has it.
    pub fn find(db: &Database, parent_id: i32) -> (r: Option<Parent>)
        requires
            db.wf(),
        ensures
            r is Some <==> has_id(db.parents@, parent_id_of(), parent_id as int),
            r matches Some(p) ==> p == row_with_id(db.parents@, parent_id_of(), parent_id as int),
    {
        let n = db.parents.len();
        let mut k: usize = 0;
        while k < n
            invariant
                k <= n,
                n == db.parents@.len(),
                db.wf(),
                forall|i: int| 0 <= i < k ==> (#[trigger] db.parents@[i]).id != parent_id,
            decreases n - k,
        {
            if db.parents[k].id == parent_id {
                let p = db.parents[k].clone();
                proof {
                    lemma_row_with_id(db.parents@, parent_id_of(), parent_id as int, k as int);
                }
                return Some(p);
            }
            k += 1;
        }
        None
    }

    /// The parent with the given id, or `NotFound`.
    pub fn get(db: &Database, parent_id: i32) -> (r: Result<Parent, AppError>)
        requires
            db.wf(),
        ensures
            r is Ok <==> has_id(db.parents@, parent_id_of(), parent_id as int),
            r matches Ok(p) ==> p == row_with_id(db.parents@, parent_id_of(), parent_id as int),
            r matches Err(e) ==> e matches AppError::NotFound(_),
    {
        match Self::find(db, parent_id) {
            Some(p) => Ok(p),
            None => Err(AppError::NotFound("Parent not found".to_owned())),
        }
    }

    /// Applies the given field updates to the parent with that id.
    pub fn update(db: &mut Database, parent_id: i32, updated_parent: UpdateParent) -> (r: Result<
        Parent,
        AppError,
    >)
        requires
            old(db).wf(),
        ensures
            final(db).wf(),
            Database::only_parents_changed(*old(db), *final(db)),
            final(db).next_parent_id == old(db).next_parent_id,
            r is Ok <==> has_id(old(db).parents@, parent_id_of(), parent_id as int),
            r matches Ok(p) ==> ({
                &&& p == spec_apply_parent_update(
                    row_with_id(old(db).parents@, parent_id_of(), parent_id as int),
                    updated_parent,
                )
                &&& final(db).parents@ == old(db).parents@.update(
                    idx_with_id(old(db).parents@, parent_id_of(), parent_id as int),
                    p,
                )
            }),
            r matches Err(e) ==> e matches AppError::NotFound(_) && *final(db) == *old(db),
    {
        let n = db.parents.len();
        let mut k: usize = 0;
        while k < n
            invariant
                k <= n,
                n == db.parents@.len(),
                db.wf(),
                *db == *old(db),
                forall|i: int| 0 <= i < k ==> (#[trigger] db.parents@[i]).id != parent_id,
            decreases n - k,
        {
            if db.parents[k].id == parent_id {
                proof {
                    lemma_row_with_id(db.parents@, parent_id_of(), parent_id as int, k as int);
                }
                let current = db.parents[k].clone();
                let updated = Parent {
                    id: current.id,
                    name: match updated_parent.name {
                        Some(n) => n,
                        None => current.name,
                    },
                    additional_info: match updated_parent.additional_info {
                        Some(a) => Some(a),
                        None => current.additional_info,
                    },
                };
                let result = updated.clone();
                db.parents.set(k, updated);
                return Ok(result);
            }
            k += 1;
        }
        Err(AppError::NotFound("Parent not found".to_owned()))
    }

    /// Removes the parent with that id; the count of removed rows.
    #[verifier::loop_isolation(false)]
    pub fn delete(db: &mut Database, parent_id: i32) -> (r: Result<usize, AppError>)
        requires
            old(db).wf(),
        ensures
            final(db).wf(),
            Database::only_parents_changed(*old(db), *final(db)),
            final(db).next_parent_id == old(db).next_parent_id,
            final(db).parents@ == old(db).parents@.filter(|p: Parent| p.id != parent_id),
            r matches Ok(cnt) && ((cnt > 0) <==> has_id(
                old(db).parents@,
                parent_id_of(),
                parent_id as int,
            )),
    {
        let ghost pred = |p: Parent| p.id != parent_id;
        let n = db.parents.len();
        let mut kept: Vec<Parent> = Vec::new();
        let mut k: usize = 0;
        while k < n
            invariant
                k <= n,
                n == db.parents@.len(),
                *db == *old(db),
                kept@ == db.parents@.take(k as int).filter(pred),
            decreases n - k,
        {
            if db.parents[k].id != parent_id {
                kept.push(db.parents[k].clone());
            }
            proof {
                let s = db.parents@;
                let x = s[k as int];
                lemma_filter_push(s.take(k as int), pred, x);
                assert(s.take(k as int + 1) =~= s.take(k as int).push(x));
            }
            k += 1;
        }
        proof {
            broadcast use Seq::lemma_filter_len;

            assert(db.parents@.take(n as int) =~= db.parents@);
            if has_id(db.parents@, parent_id_of(), parent_id as int) {
                let i = idx_with_id(db.parents@, parent_id_of(), parent_id as int);
                assert(0 <= i < db.parents@.len() && db.parents@[i].id == parent_id);
                lemma_filter_drops_some(db.parents@, pred, i);
            } else {
                assert forall|i: int| 0 <= i < db.parents@.len() implies pred(
                    #[trigger] db.parents@[i],
                ) by {
                    assert(!has_id(db.parents@, parent_id_of(), parent_id as int));
                }
                lemma_filter_all(db.parents@, pred);
            }
            lemma_filter_keeps_table_wf(
                db.parents@,
                pred,
                parent_id_of(),
                db.next_parent_id as int,
            );
        }
        let removed = n - kept.len();
        db.parents = kept;
        Ok(removed)
    }
}

} // verus!
