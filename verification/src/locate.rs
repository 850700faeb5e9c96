//! Finding the backend executable and making sure it can be executed.

use vstd::prelude::*;
use crate::error::LaunchError;

verus! {

/// A place where the backend executable may be, and whether a file is
/// there.
#[derive(Clone, Debug, PartialEq, Eq)]
pub struct Candidate {
    pub path: String,
    pub exists: bool,
}

/// The mathematical content of a [`Candidate`].
pub struct CandidateView {
    pub path: Seq<char>,
    pub exists: bool,
}

impl View for Candidate {
    type V = CandidateView;

    open spec fn view(&self) -> CandidateView {
        CandidateView { path: self.path@, exists: self.exists }
    }
}

/// The view of a candidate that may be missing.
pub open spec fn candidate_view(candidate: Option<Candidate>) -> Option<CandidateView> {
    match candidate {
        Some(c) => Some(c@),
        None => None,
    }
}

/// Where the backend is: beside the launcher if a file is there, else
/// among the packaged resources if a file is there, else nowhere.
pub open spec fn resolved(adjacent: CandidateView, resource: Option<CandidateView>) -> Result<
    Seq<char>,
    LaunchError,
> {
    if adjacent.exists {
        Ok(adjacent.path)
    } else if resource is Some && resource->0.exists {
        Ok(resource->0.path)
    } else {
        Err(LaunchError::BackendNotFound)
    }
}

/// Picks the backend executable. `adjacent` is the file beside the
/// launcher's own executable; `resource` is the file in the directory of
/// packaged resources, or `None` where there is no such directory.
pub fn resolve(adjacent: Candidate, resource: Option<Candidate>) -> (path: Result<
    String,
    LaunchError,
>)
    ensures
        match path {
            Ok(p) => resolved(adjacent@, candidate_view(resource)) == Ok::<Seq<char>, LaunchError>(
                p@,
            ),
            Err(e) => resolved(adjacent@, candidate_view(resource)) == Err::<
                Seq<char>,
                LaunchError,
            >(e),
        },
{
    if adjacent.exists {
        return Ok(adjacent.path);
    }
    match resource {
        Some(candidate) => {
            if candidate.exists {
                Ok(candidate.path)
            } else {
                Err(LaunchError::BackendNotFound)
            }
        },
        None => Err(LaunchError::BackendNotFound),
    }
}

/// The permission bits that let the owner, the group and others execute a
/// file.
pub const EXECUTE_BITS: u32 = 0o111;

/// The permission bit that lets the owner execute a file.
pub const OWNER_EXECUTE_BIT: u32 = 0o100;

/// The bits added to a file that nobody may execute: everything for the
/// owner, read and execute for the group and for others.
pub const REPAIR_BITS: u32 = 0o755;

/// Whether nobody may execute a file with these permission bits.
pub open spec fn lacks_execute(mode: u32) -> bool {
    mode & EXECUTE_BITS == 0
}

/// The permission bits to give the backend executable, or `None` where
/// `mode` can stay. Archives may drop the execute bits when a file is
/// unpacked: a file that nobody may execute gets [`REPAIR_BITS`] added, and
/// so can be executed by its owner at least; it loses no bit it had. A file
/// that anybody may execute is left alone.
pub fn repaired_mode(mode: u32) -> (repaired: Option<u32>)
    ensures
        repaired == (if lacks_execute(mode) {
            Some(mode | REPAIR_BITS)
        } else {
            None
        }),
        repaired matches Some(m) ==> m & OWNER_EXECUTE_BIT == OWNER_EXECUTE_BIT && m & EXECUTE_BITS
            == EXECUTE_BITS && m & mode == mode,
{
    if mode & EXECUTE_BITS == 0 {
        let m = mode | REPAIR_BITS;
        assert((mode | 0o755u32) & 0o100u32 == 0o100u32 && (mode | 0o755u32) & 0o111u32 == 0o111u32
            && (mode | 0o755u32) & mode == mode) by (bit_vector);
        Some(m)
    } else {
        None
    }
}

} // verus!
