//! Documents: file metadata for a teacher's uploads. The blob itself lives in
//! file storage under `storage/teachers/{teacher_id}/{id}.{extension}`; the
//! store only keeps the row. Ids are random 128-bit values.
use vstd::prelude::*;
use vstd::string::StrSliceExecFns;
use crate::date::Timestamp;
use crate::error::AppError;

verus! {

/// The suffix of `name` after its last `.`, or all of `name` if it has none:
/// the extension under which the blob is stored.
pub open spec fn spec_last_dot(name: Seq<char>) -> int
    decreases name.len(),
{
    if name.len() == 0 {
        -1
    } else if name.last() == '.' {
        name.len() - 1
    } else {
        spec_last_dot(name.drop_last())
    }
}

pub open spec fn spec_extension_of(name: Seq<char>) -> Seq<char> {
    name.subrange(spec_last_dot(name) + 1, name.len() as int)
}

pub proof fn lemma_last_dot_in_range(name: Seq<char>)
    ensures
        -1 <= spec_last_dot(name) < name.len(),
        spec_last_dot(name) >= 0 ==> name[spec_last_dot(name)] == '.',
    decreases name.len(),
{
    if name.len() != 0 && name.last() != '.' {
        lemma_last_dot_in_range(name.drop_last());
    }
}

#[derive(Debug, PartialEq)]
pub struct Document {
    pub id: u128,
    pub name: String,
    pub uploaded_at: Timestamp,
    pub teacher_id: i32,
}

impl Clone for Document {
    fn clone(&self) -> (res: Self)
        ensures
            res == *self,
    {
        Document {
            id: self.id,
            name: self.name.clone(),
            uploaded_at: self.uploaded_at,
            teacher_id: self.teacher_id,
        }
    }
}

impl Document {
    /// The stored file's extension, read off the declared file name.
    pub fn file_extension(&self) -> (r: Result<String, AppError>)
        ensures
            r matches Ok(ext) && ext@ == spec_extension_of(self.name@),
    {
        let ghost name = self.name@;
        let n = self.name.as_str().unicode_len();
        let mut i: usize = n;
        proof {
            lemma_last_dot_in_range(name);
            assert(name.take(n as int) =~= name);
        }
        while i > 0 && self.name.as_str().get_char(i - 1) != '.'
            invariant
                i <= n,
                n == name.len(),
                self.name@ == name,
                spec_last_dot(name) == spec_last_dot(name.take(i as int)),
            decreases i,
        {
            proof {
                assert(name.take(i as int).drop_last() =~= name.take(i as int - 1));
            }
            i = i - 1;
        }
        proof {
            if i > 0 {
                assert(name.take(i as int).last() == name[i as int - 1]);
                assert(spec_last_dot(name.take(i as int)) == i - 1);
            }
            assert(spec_last_dot(name) == i - 1);
        }
        let ext = self.name.as_str().substring_char(i, n);
        Ok(ext.to_owned())
    }
}

#[derive(Debug)]
pub struct NewDocument {
    pub name: String,
    pub teacher_id: i32,
}

/// The multipart form shape of an upload: a single file field.
#[derive(Debug)]
pub struct DocumentFileForm {
    pub document: String,
}

} // verus!
