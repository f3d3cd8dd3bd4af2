use vstd::prelude::*;
use crate::bytes::copy_bytes;
use crate::errors::PipelineError;

verus! {

/// One direct child of the working directory, reduced to plain values:
/// its file name and whether it is a directory.
pub struct DirEntryInfo {
    pub name: Vec<u8>,
    pub is_dir: bool,
}

/// Index `i` names the one and only directory among the entries.
pub open spec fn is_unique_dir(es: Seq<DirEntryInfo>, i: int) -> bool {
    &&& 0 <= i < es.len()
    &&& es[i].is_dir
    &&& forall|j: int| 0 <= j < es.len() && es[j].is_dir ==> j == i
}

/// Find the single extracted source directory among the working
/// directory's direct children. Exactly one directory must be present;
/// zero or several is the fatal "no valid source directory" condition.
pub fn resolve_source_dir(entries: &Vec<DirEntryInfo>) -> (r: Result<Vec<u8>, PipelineError>)
    ensures
        r is Ok <==> exists|i: int| is_unique_dir(entries@, i),
        r matches Ok(name) ==> exists|i: int|
            is_unique_dir(entries@, i) && name@ == entries@[i].name@,
        r is Err ==> r == Err::<Vec<u8>, PipelineError>(PipelineError::NoSourceDir),
{
    let mut found: Option<usize> = None;
    let mut k: usize = 0;
    while k < entries.len()
        invariant
            k <= entries.len(),
            found is None ==> forall|j: int| 0 <= j < k ==> !entries@[j].is_dir,
            found matches Some(i) ==> i < k && entries@[i as int].is_dir && (forall|j: int|
                0 <= j < k && entries@[j].is_dir ==> j == i as int),
        decreases entries.len() - k,
    {
        if entries[k].is_dir {
            match found {
                None => {
                    found = Some(k);
                },
                Some(i) => {
                    // A second directory: the layout invariant is broken.
                    assert(!(exists|u: int| is_unique_dir(entries@, u))) by {
                        if exists|u: int| is_unique_dir(entries@, u) {
                            let u = choose|u: int| is_unique_dir(entries@, u);
                            assert(u == i as int);
                            assert(u == k as int);
                        }
                    }
                    return Err(PipelineError::NoSourceDir);
                },
            }
        }
        k += 1;
    }
    match found {
        Some(i) => {
            assert(is_unique_dir(entries@, i as int));
            Ok(copy_bytes(entries[i].name.as_slice()))
        },
        None => {
            assert(!(exists|u: int| is_unique_dir(entries@, u))) by {
                if exists|u: int| is_unique_dir(entries@, u) {
                    let u = choose|u: int| is_unique_dir(entries@, u);
                    assert(entries@[u].is_dir);
                }
            }
            Err(PipelineError::NoSourceDir)
        },
    }
}

} // verus!
