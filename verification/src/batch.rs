//! The three operations, each over a list of containers.
//!
//! Every container is handled on its own: the results come in the order of
//! the containers, one for each, and each is what the operation gives on
//! that container alone.

use vstd::prelude::*;
use crate::container::{
    has_stream, intact, objects, stream_at, unchanged, vacant, Container, FILE_PROTECTION,
    VERSION_INFORMATION,
};
use crate::error::{FTypeError, FtvFileError};
use crate::protection::{
    is_locked, is_protected, protection_outcome, strip_outcome, strip_protection, stripped,
};
use crate::version::{get_version, version_of_stream, version_outcome, FileVersion};

verus! {

/// Reads the version of every container in `files`. The containers are left
/// as they were.
pub fn get_versions(files: &mut Vec<Container>) -> (versions: Vec<Result<FileVersion, FtvFileError>>)
    ensures
        final(files)@.len() == old(files)@.len(),
        versions@.len() == old(files)@.len(),
        forall|i: int|
            0 <= i < old(files)@.len() ==> unchanged(old(files)@[i], #[trigger] final(files)@[i]),
        forall|i: int|
            0 <= i < old(files)@.len() ==> version_outcome(
                objects(old(files)@[i]),
                intact(old(files)@[i]),
                #[trigger] versions@[i],
            ),
        forall|i: int|
            0 <= i < old(files)@.len() ==> (vacant(objects(old(files)@[i]), VERSION_INFORMATION@)
                <==> #[trigger] versions@[i] == Err::<FileVersion, FtvFileError>(
                FtvFileError::FileTypeError(FTypeError::NoVersion),
            )),
        forall|i: int|
            0 <= i < old(files)@.len() && intact(old(files)@[i]) && has_stream(
                objects(old(files)@[i]),
                VERSION_INFORMATION@,
            ) ==> #[trigger] versions@[i] == version_of_stream(
                stream_at(objects(old(files)@[i]), VERSION_INFORMATION@),
            ),
{
    let mut versions: Vec<Result<FileVersion, FtvFileError>> = Vec::new();
    let mut done: usize = 0;
    while done < files.len()
        invariant
            done <= files@.len(),
            files@.len() == old(files)@.len(),
            versions@.len() == done,
            forall|i: int|
                0 <= i < files@.len() ==> unchanged(old(files)@[i], #[trigger] files@[i]),
            forall|i: int|
                0 <= i < done ==> version_outcome(
                    objects(old(files)@[i]),
                    intact(old(files)@[i]),
                    #[trigger] versions@[i],
                ),
        decreases files@.len() - done,
    {
        let version = get_version(&mut files[done]);
        versions.push(version);
        done = done + 1;
    }
    versions
}

/// Tells of every container in `files` whether it is locked. The containers
/// are left as they were.
pub fn are_protected(files: &mut Vec<Container>) -> (verdicts: Vec<Result<bool, FtvFileError>>)
    ensures
        final(files)@.len() == old(files)@.len(),
        verdicts@.len() == old(files)@.len(),
        forall|i: int|
            0 <= i < old(files)@.len() ==> unchanged(old(files)@[i], #[trigger] final(files)@[i]),
        forall|i: int|
            0 <= i < old(files)@.len() ==> protection_outcome(
                objects(old(files)@[i]),
                intact(old(files)@[i]),
                #[trigger] verdicts@[i],
            ),
        forall|i: int|
            0 <= i < old(files)@.len() && intact(old(files)@[i]) && has_stream(
                objects(old(files)@[i]),
                FILE_PROTECTION@,
            ) ==> #[trigger] verdicts@[i] == Ok::<bool, FtvFileError>(
                is_locked(stream_at(objects(old(files)@[i]), FILE_PROTECTION@)),
            ),
{
    let mut verdicts: Vec<Result<bool, FtvFileError>> = Vec::new();
    let mut done: usize = 0;
    while done < files.len()
        invariant
            done <= files@.len(),
            files@.len() == old(files)@.len(),
            verdicts@.len() == done,
            forall|i: int|
                0 <= i < files@.len() ==> unchanged(old(files)@[i], #[trigger] files@[i]),
            forall|i: int|
                0 <= i < done ==> protection_outcome(
                    objects(old(files)@[i]),
                    intact(old(files)@[i]),
                    #[trigger] verdicts@[i],
                ),
        decreases files@.len() - done,
    {
        let verdict = is_protected(&mut files[done]);
        verdicts.push(verdict);
        done = done + 1;
    }
    verdicts
}

/// Clears the protection of every container in `files`, each of which has
/// to be intact. A container on which this fails is left as it was and does
/// not keep the others from being handled; where it would succeed on each
/// container alone, it succeeds on all.
pub fn strip_protections(files: &mut Vec<Container>) -> (results: Vec<Result<(), FtvFileError>>)
    requires
        forall|i: int| 0 <= i < old(files)@.len() ==> intact(#[trigger] old(files)@[i]),
    ensures
        final(files)@.len() == old(files)@.len(),
        results@.len() == old(files)@.len(),
        forall|i: int| 0 <= i < old(files)@.len() ==> intact(#[trigger] final(files)@[i]),
        forall|i: int|
            0 <= i < old(files)@.len() ==> strip_outcome(
                objects(old(files)@[i]),
                objects(final(files)@[i]),
                #[trigger] results@[i],
            ),
        forall|i: int|
            0 <= i < old(files)@.len() ==> (#[trigger] results@[i] is Ok <==> stripped(
                objects(old(files)@[i]),
            ) is Some),
{
    let mut results: Vec<Result<(), FtvFileError>> = Vec::new();
    let mut done: usize = 0;
    while done < files.len()
        invariant
            done <= files@.len(),
            files@.len() == old(files)@.len(),
            results@.len() == done,
            forall|i: int| done <= i < files@.len() ==> #[trigger] files@[i] == old(files)@[i],
            forall|i: int| 0 <= i < files@.len() ==> intact(#[trigger] files@[i]),
            forall|i: int| 0 <= i < old(files)@.len() ==> intact(#[trigger] old(files)@[i]),
            forall|i: int|
                0 <= i < done ==> strip_outcome(
                    objects(old(files)@[i]),
                    objects(files@[i]),
                    #[trigger] results@[i],
                ),
            forall|i: int|
                0 <= i < done ==> (#[trigger] results@[i] is Ok <==> stripped(
                    objects(old(files)@[i]),
                ) is Some),
        decreases files@.len() - done,
    {
        let result = strip_protection(&mut files[done]);
        results.push(result);
        done = done + 1;
    }
    results
}

} // verus!
