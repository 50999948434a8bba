//! The lock state of a container: how it is read, and how it is cleared.
//!
//! An unlocked file carries seven bytes in its protection stream. A password
//! makes the stream longer. A file exported as "never restore" carries seven
//! bytes too, with the fourth set to one, and counts as locked.

use vstd::prelude::*;
use crate::container::{
    create_new_stream, has_stream, intact, lemma_stream_paths, objects, overwritten, read_stream,
    set_stream_len, stream_at, stream_len, unchanged, vacant, write_stream, Container, Objects,
    FILE_PROTECTION, VERSION_INFORMATION,
};
use crate::error::{not_found, FTypeError, FtvFileError};
use crate::version::{decoded, get_version, FileVersion};

verus! {

/// Number of bytes in the protection stream of an unlocked file.
pub const PROTECTION_LEN: u64 = 7;

/// The protection stream of a file that was exported as "never restore".
pub open spec fn never_convert() -> Seq<u8> {
    seq![0x00u8, 0x03u8, 0x00u8, 0x01u8, 0x00u8, 0x00u8, 0x00u8]
}

/// The protection stream that is written to unlock a file.
pub open spec fn unlocked() -> Seq<u8> {
    seq![0x00u8, 0x03u8, 0x00u8, 0x00u8, 0x00u8, 0x00u8, 0x00u8]
}

/// The version stream that is written into an old-format file: it decodes
/// as version 5.10.
pub open spec fn restamped() -> Seq<u8> {
    seq![0x03u8, 0x05u8, 0x0Au8]
}

/// Whether a protection stream of the bytes `stream` marks a locked file.
/// A stream of seven bytes is locked only as the "never restore" pattern;
/// any other stream is locked when it is longer than seven bytes.
pub open spec fn is_locked(stream: Seq<u8>) -> bool {
    if stream.len() == 7 {
        stream == never_convert()
    } else {
        stream.len() > 7
    }
}

/// How the verdict on a container relates to the container, whose objects
/// are `objects` and which is intact or not. A verdict is owed whenever the
/// protection stream is there and not seven bytes long; one of seven bytes
/// has to be read, which an intact container does.
pub open spec fn protection_outcome(
    objects: Objects,
    intact: bool,
    result: Result<bool, FtvFileError>,
) -> bool {
    match result {
        Ok(locked) => has_stream(objects, FILE_PROTECTION@) && locked == is_locked(
            stream_at(objects, FILE_PROTECTION@),
        ),
        Err(FtvFileError::FileTypeError(_)) => false,
        Err(FtvFileError::IoError(error)) => if has_stream(objects, FILE_PROTECTION@) {
            stream_at(objects, FILE_PROTECTION@).len() == 7 && !intact
        } else {
            not_found(error) <==> vacant(objects, FILE_PROTECTION@)
        },
    }
}

/// The container that clearing the protection of `objects` gives, or `None`
/// where the procedure cannot run: without a valid version, for an
/// old-format file that has something at the protection path already, or
/// for a current file without a protection stream.
pub open spec fn stripped(objects: Objects) -> Option<Objects> {
    if !has_stream(objects, VERSION_INFORMATION@) {
        None
    } else {
        match decoded(stream_at(objects, VERSION_INFORMATION@)) {
            Err(_) => None,
            Ok(version) => if version.major_rev < 5 {
                if vacant(objects, FILE_PROTECTION@) {
                    Some(
                        objects.insert(FILE_PROTECTION@, Some(unlocked())).insert(
                            VERSION_INFORMATION@,
                            Some(restamped()),
                        ),
                    )
                } else {
                    None
                }
            } else {
                if has_stream(objects, FILE_PROTECTION@) {
                    Some(objects.insert(FILE_PROTECTION@, Some(unlocked())))
                } else {
                    None
                }
            },
        }
    }
}

/// How the result of clearing the protection of an intact container
/// relates to its objects before and after. The run succeeds exactly where
/// `stripped` gives a container, and leaves that one. Every failure leaves
/// the container as it was, and tells why the run could not start: no
/// version stream, one of the wrong length, or a failure of the container,
/// which is of kind `NotFound` exactly for a current file with nothing at
/// the protection path.
pub open spec fn strip_outcome(before: Objects, after: Objects, result: Result<(), FtvFileError>) -> bool {
    match result {
        Ok(_) => stripped(before) == Some(after),
        Err(failure) => after == before && stripped(before) is None && match failure {
            FtvFileError::FileTypeError(FTypeError::NoVersion) => vacant(
                before,
                VERSION_INFORMATION@,
            ),
            FtvFileError::FileTypeError(FTypeError::InvalidVersion) => has_stream(
                before,
                VERSION_INFORMATION@,
            ) && stream_at(before, VERSION_INFORMATION@).len() != 3,
            FtvFileError::IoError(error) => !vacant(before, VERSION_INFORMATION@) && (has_stream(
                before,
                VERSION_INFORMATION@,
            ) ==> stream_at(before, VERSION_INFORMATION@).len() == 3) && (not_found(error)
                <==> has_stream(before, VERSION_INFORMATION@) && stream_at(
                before,
                VERSION_INFORMATION@,
            )[1] >= 5 && vacant(before, FILE_PROTECTION@)),
        },
    }
}

/// Whether `stream` is the "never restore" pattern.
pub fn is_never_convert(stream: &[u8]) -> (same: bool)
    ensures
        same <==> stream@ == never_convert(),
{
    let same = stream.len() == 7 && stream[0] == 0x00 && stream[1] == 0x03 && stream[2] == 0x00
        && stream[3] == 0x01 && stream[4] == 0x00 && stream[5] == 0x00 && stream[6] == 0x00;
    proof {
        if same {
            assert(stream@ =~= never_convert());
        }
    }
    same
}

/// The verdict on the bytes of a protection stream: `true` for locked.
/// Eight bytes or more are locked, six or fewer are not, and seven are
/// locked only as the "never restore" pattern.
pub fn protection_verdict(stream: &[u8]) -> (locked: bool)
    ensures
        locked == is_locked(stream@),
        stream@.len() > 7 ==> locked,
        stream@.len() < 7 ==> !locked,
        stream@.len() == 7 ==> (locked <==> stream@ == never_convert()),
{
    if stream.len() == 7 {
        is_never_convert(stream)
    } else {
        stream.len() > 7
    }
}

/// Tells whether `file` is locked: protected by a password, or exported as
/// "never restore". The container is left as it was.
///
/// A file without a protection stream gives `IoError`. Only the length of
/// the stream is looked at, unless it is seven: then the bytes decide, and a
/// damaged container that cannot hand them out gives `IoError` too.
pub fn is_protected(file: &mut Container) -> (verdict: Result<bool, FtvFileError>)
    ensures
        unchanged(*old(file), *final(file)),
        protection_outcome(objects(*old(file)), intact(*old(file)), verdict),
        !has_stream(objects(*old(file)), FILE_PROTECTION@) ==> verdict is Err && verdict->Err_0
            is IoError,
        intact(*old(file)) && has_stream(objects(*old(file)), FILE_PROTECTION@) ==> verdict
            == Ok::<bool, FtvFileError>(is_locked(stream_at(objects(*old(file)), FILE_PROTECTION@))),
        has_stream(objects(*old(file)), FILE_PROTECTION@) && stream_at(
            objects(*old(file)),
            FILE_PROTECTION@,
        ).len() != 7 ==> verdict == Ok::<bool, FtvFileError>(
            stream_at(objects(*old(file)), FILE_PROTECTION@).len() > 7,
        ),
{
    proof {
        lemma_stream_paths();
    }
    let len = match stream_len(file, FILE_PROTECTION) {
        Ok(len) => len,
        Err(error) => {
            return Err(FtvFileError::IoError(error));
        },
    };
    if len == PROTECTION_LEN {
        match read_stream(file, FILE_PROTECTION) {
            Ok(bytes) => Ok(protection_verdict(bytes.as_slice())),
            Err(error) => Err(FtvFileError::IoError(error)),
        }
    } else {
        Ok(len > PROTECTION_LEN)
    }
}

/// Sizes the protection stream to seven bytes and writes the unlocked
/// pattern over them. This succeeds exactly when there is a protection
/// stream. Without one nothing is changed, and the failure of the container
/// is handed back as it came: of kind `NotFound` exactly when nothing is
/// found at the path.
fn write_unlocked(file: &mut Container) -> (written: Result<(), std::io::Error>)
    requires
        intact(*old(file)),
    ensures
        intact(*final(file)),
        written is Ok <==> has_stream(objects(*old(file)), FILE_PROTECTION@),
        written is Ok ==> objects(*final(file)) == objects(*old(file)).insert(
            FILE_PROTECTION@,
            Some(unlocked()),
        ),
        written matches Err(error) ==> objects(*final(file)) == objects(*old(file)) && (not_found(
            error,
        ) <==> vacant(objects(*old(file)), FILE_PROTECTION@)),
{
    proof {
        lemma_stream_paths();
    }
    set_stream_len(file, FILE_PROTECTION, PROTECTION_LEN)?;
    let ghost sized = objects(*file);
    let pattern: [u8; 7] = [0x00, 0x03, 0x00, 0x00, 0x00, 0x00, 0x00];
    write_stream(file, FILE_PROTECTION, pattern.as_slice())?;
    proof {
        assert(pattern@ =~= unlocked());
        assert(overwritten(stream_at(sized, FILE_PROTECTION@), pattern@) =~= unlocked());
        assert(objects(*file) =~= objects(*old(file)).insert(FILE_PROTECTION@, Some(unlocked())));
    }
    Ok(())
}

/// Writes the version stamp 5.10 over the start of the version stream,
/// which replaces a stream of three bytes and leaves a longer one with its
/// tail. This succeeds exactly when there is a version stream. Without one
/// nothing is changed, and the failure of the container is handed back as
/// it came: of kind `NotFound` exactly when nothing is found at the path.
fn write_restamped(file: &mut Container) -> (written: Result<(), std::io::Error>)
    requires
        intact(*old(file)),
    ensures
        intact(*final(file)),
        written is Ok <==> has_stream(objects(*old(file)), VERSION_INFORMATION@),
        written is Ok ==> objects(*final(file)) == objects(*old(file)).insert(
            VERSION_INFORMATION@,
            Some(overwritten(stream_at(objects(*old(file)), VERSION_INFORMATION@), restamped())),
        ),
        written matches Err(error) ==> objects(*final(file)) == objects(*old(file)) && (not_found(
            error,
        ) <==> vacant(objects(*old(file)), VERSION_INFORMATION@)),
{
    proof {
        lemma_stream_paths();
    }
    let stamp: [u8; 3] = [0x03, 0x05, 0x0A];
    write_stream(file, VERSION_INFORMATION, stamp.as_slice())?;
    proof {
        assert(stamp@ =~= restamped());
    }
    Ok(())
}

/// The writes for a file of `version`, whose version stream has been read
/// from `file` just before. An old-format file gets its protection stream
/// created and written and its version stamped; a current one gets its
/// protection stream sized and written. This succeeds exactly where
/// `stripped` gives a container, and leaves that one. Where it cannot
/// start, because an old-format file has something at the protection path
/// or a current one has no protection stream, nothing is changed and the
/// failure of the container is handed back as it came.
fn strip_as(file: &mut Container, version: FileVersion) -> (done: Result<(), std::io::Error>)
    requires
        intact(*old(file)),
        has_stream(objects(*old(file)), VERSION_INFORMATION@),
        decoded(stream_at(objects(*old(file)), VERSION_INFORMATION@)) == Ok::<
            FileVersion,
            FTypeError,
        >(version),
    ensures
        intact(*final(file)),
        done is Ok <==> stripped(objects(*old(file))) is Some,
        done is Ok ==> stripped(objects(*old(file))) == Some(objects(*final(file))),
        done matches Err(error) ==> objects(*final(file)) == objects(*old(file)) && (not_found(
            error,
        ) <==> version.major_rev >= 5 && vacant(objects(*old(file)), FILE_PROTECTION@)),
{
    proof {
        lemma_stream_paths();
    }
    if version.is_old() {
        create_new_stream(file, FILE_PROTECTION)?;
        write_unlocked(file)?;
        write_restamped(file)?;
        proof {
            assert(overwritten(stream_at(objects(*old(file)), VERSION_INFORMATION@), restamped())
                =~= restamped());
            assert(objects(*file) =~= objects(*old(file)).insert(
                FILE_PROTECTION@,
                Some(unlocked()),
            ).insert(VERSION_INFORMATION@, Some(restamped())));
        }
        Ok(())
    } else {
        write_unlocked(file)
    }
}

/// Clears the protection of `file`, whether it is a password or the "never
/// restore" mark. The container has to be intact: `cfb` changes a
/// container on the strength of its tables.
///
/// The version is read first, and a failure to read it is passed on. A file
/// of major revision 5 or later has its protection stream sized to seven
/// bytes and overwritten with the unlocked pattern. An older file has no
/// such stream: it is created and written, and the version stream is
/// stamped 5.10, so that the file is taken for one that can be restored.
/// Nothing else is touched, and a run that fails has changed nothing.
pub fn strip_protection(file: &mut Container) -> (done: Result<(), FtvFileError>)
    requires
        intact(*old(file)),
    ensures
        intact(*final(file)),
        strip_outcome(objects(*old(file)), objects(*final(file)), done),
        done is Ok <==> stripped(objects(*old(file))) is Some,
        vacant(objects(*old(file)), VERSION_INFORMATION@) ==> done == Err::<(), FtvFileError>(
            FtvFileError::FileTypeError(FTypeError::NoVersion),
        ),
        has_stream(objects(*old(file)), VERSION_INFORMATION@) && stream_at(
            objects(*old(file)),
            VERSION_INFORMATION@,
        ).len() != 3 ==> done == Err::<(), FtvFileError>(
            FtvFileError::FileTypeError(FTypeError::InvalidVersion),
        ),
{
    let version = match get_version(file) {
        Ok(version) => version,
        Err(error) => {
            return Err(error);
        },
    };
    match strip_as(file, version) {
        Ok(_) => Ok(()),
        Err(error) => Err(FtvFileError::IoError(error)),
    }
}

/// After the protection has been cleared, the protection stream is the
/// unlocked pattern, and it reads as not locked.
pub proof fn lemma_stripped_is_unlocked(objects: Objects)
    requires
        stripped(objects) is Some,
    ensures
        has_stream(stripped(objects)->Some_0, FILE_PROTECTION@),
        stream_at(stripped(objects)->Some_0, FILE_PROTECTION@) == unlocked(),
        !is_locked(stream_at(stripped(objects)->Some_0, FILE_PROTECTION@)),
{
    lemma_stream_paths();
    assert(unlocked().len() == 7);
    assert(unlocked()[3] != never_convert()[3]);
}

/// Clearing the protection twice is the same as clearing it once: the
/// second run is not refused, leaves the container as the first made it,
/// and the file reads as not locked after each.
pub proof fn lemma_strip_twice(objects: Objects)
    requires
        stripped(objects) is Some,
    ensures
        stripped(stripped(objects)->Some_0) == stripped(objects),
        !is_locked(stream_at(stripped(objects)->Some_0, FILE_PROTECTION@)),
{
    lemma_stream_paths();
    lemma_stripped_is_unlocked(objects);
    let once = stripped(objects)->Some_0;
    let version = decoded(stream_at(objects, VERSION_INFORMATION@))->Ok_0;
    if version.major_rev < 5 {
        assert(stream_at(once, VERSION_INFORMATION@) == restamped());
        assert(decoded(restamped()) == Ok::<FileVersion, FTypeError>(
            FileVersion { major_rev: 5, minor_rev: 10 },
        ));
    } else {
        assert(stream_at(once, VERSION_INFORMATION@) == stream_at(objects, VERSION_INFORMATION@));
    }
    assert(once.insert(FILE_PROTECTION@, Some(unlocked())) =~= once);
}

/// Two runs in a row on an intact container, and a look at the lock state
/// after each: the second run succeeds and leaves the container as the
/// first made it, and both looks say not locked.
pub proof fn lemma_strip_again(
    before: Objects,
    once: Objects,
    twice: Objects,
    second: Result<(), FtvFileError>,
    verdict_once: Result<bool, FtvFileError>,
    verdict_twice: Result<bool, FtvFileError>,
)
    requires
        strip_outcome(before, once, Ok(())),
        strip_outcome(once, twice, second),
        protection_outcome(once, true, verdict_once),
        protection_outcome(twice, true, verdict_twice),
    ensures
        second is Ok,
        twice == once,
        verdict_once == Ok::<bool, FtvFileError>(false),
        verdict_twice == Ok::<bool, FtvFileError>(false),
{
    lemma_strip_twice(before);
}

/// Whatever comes of clearing the protection of an intact container, no
/// object but the version stream and the protection stream is touched:
/// every other path resolves afterwards to what it resolved to before.
pub proof fn lemma_strip_touches_two_streams(
    before: Objects,
    after: Objects,
    result: Result<(), FtvFileError>,
)
    requires
        strip_outcome(before, after, result),
    ensures
        forall|path: Seq<char>|
            path != FILE_PROTECTION@ && path != VERSION_INFORMATION@ ==> (after.dom().contains(path)
                <==> before.dom().contains(path)) && after[path] == before[path],
        result is Err ==> after == before,
        result is Ok <==> stripped(before) is Some,
{
}

/// For a file of major revision 5 or later that has a protection stream,
/// clearing the protection replaces that stream by the unlocked pattern and
/// changes nothing else: the version still reads the same.
pub proof fn lemma_strip_current(objects: Objects, version: FileVersion)
    requires
        has_stream(objects, VERSION_INFORMATION@),
        decoded(stream_at(objects, VERSION_INFORMATION@)) == Ok::<FileVersion, FTypeError>(version),
        version.major_rev >= 5,
        has_stream(objects, FILE_PROTECTION@),
    ensures
        stripped(objects) == Some(objects.insert(FILE_PROTECTION@, Some(unlocked()))),
        stream_at(stripped(objects)->Some_0, FILE_PROTECTION@) == unlocked(),
        !is_locked(stream_at(stripped(objects)->Some_0, FILE_PROTECTION@)),
        decoded(stream_at(stripped(objects)->Some_0, VERSION_INFORMATION@)) == Ok::<
            FileVersion,
            FTypeError,
        >(version),
        forall|path: Seq<char>|
            path != FILE_PROTECTION@ ==> (stripped(objects)->Some_0.dom().contains(path)
                <==> objects.dom().contains(path)) && stripped(objects)->Some_0[path]
                == objects[path],
{
    lemma_stream_paths();
    lemma_stripped_is_unlocked(objects);
}

/// For a file of a major revision below 5 that has nothing at the
/// protection path, clearing the protection creates the stream with the
/// unlocked pattern and stamps the version 5.10; nothing else changes.
pub proof fn lemma_strip_old(objects: Objects, version: FileVersion)
    requires
        has_stream(objects, VERSION_INFORMATION@),
        decoded(stream_at(objects, VERSION_INFORMATION@)) == Ok::<FileVersion, FTypeError>(version),
        version.major_rev < 5,
        vacant(objects, FILE_PROTECTION@),
    ensures
        stripped(objects) is Some,
        stream_at(stripped(objects)->Some_0, FILE_PROTECTION@) == unlocked(),
        !is_locked(stream_at(stripped(objects)->Some_0, FILE_PROTECTION@)),
        decoded(stream_at(stripped(objects)->Some_0, VERSION_INFORMATION@)) == Ok::<
            FileVersion,
            FTypeError,
        >(FileVersion { major_rev: 5, minor_rev: 10 }),
        forall|path: Seq<char>|
            path != FILE_PROTECTION@ && path != VERSION_INFORMATION@ ==> (stripped(
                objects,
            )->Some_0.dom().contains(path) <==> objects.dom().contains(path)) && stripped(
                objects,
            )->Some_0[path] == objects[path],
{
    lemma_stream_paths();
    lemma_stripped_is_unlocked(objects);
    assert(stream_at(stripped(objects)->Some_0, VERSION_INFORMATION@) == restamped());
}

} // verus!
