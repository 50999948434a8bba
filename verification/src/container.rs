//! The compound container, seen as a set of named byte streams.
//!
//! The container format itself is the work of the `cfb` crate. This module
//! declares its handle type, gives the handle's contents a mathematical
//! model, and wraps the few stream operations that the library performs.
//! The contracts of those wrappers are taken on trust; everything else in
//! the library is proved from them.
//!
//! `cfb` opens any image whose header and tables pass its checks, and these
//! do not cover all that its later calls rely on. What the calls are trusted
//! to do is therefore tied to `intact`: reading is safe on every container
//! and owed on an intact one, writing asks for an intact one. A container
//! made by `new_container` is intact, and every call here keeps it so.

use vstd::prelude::*;
use crate::error::{is_not_found, not_found, FtvFileError};
use cfb::CompoundFile;
use std::io::Cursor;
use std::io::Read;
use std::io::Write;

verus! {

/// `std::io::Cursor`, the in-memory file under a container. Nothing is
/// known of its inside.
#[verifier::external_type_specification]
#[verifier::external_body]
#[verifier::reject_recursive_types(T)]
pub struct ExCursor<T>(Cursor<T>);

/// `cfb::CompoundFile`, the handle of an open container. Nothing is known of
/// its inside but what `objects` names.
#[verifier::external_type_specification]
#[verifier::external_body]
#[verifier::reject_recursive_types(F)]
pub struct ExCompoundFile<F>(CompoundFile<F>);

/// A container held in memory, readable and writable.
pub type Container = CompoundFile<Cursor<Vec<u8>>>;

/// The model of a container: what each path resolves to. A stream maps to
/// `Some` of its bytes, a storage to `None`; a path that resolves to nothing
/// is not in the domain.
pub type Objects = Map<Seq<char>, Option<Seq<u8>>>;

/// The objects that `file` holds, keyed by the path that `cfb` resolves to
/// them. Names compare without regard to case there, so a key is written in
/// upper case.
pub uninterp spec fn objects(file: Container) -> Objects;

/// Whether `file` is in a state that `cfb` itself brings about: made by
/// `CompoundFile::create` and changed by calls of `cfb` that succeeded, or
/// opened from the image of such a state, as a conforming writer leaves it.
/// Then every chain is whole and has one owner, recorded lengths agree with
/// the chains, and no sector in use is marked free; the calls wrapped here
/// do not panic, fail only where the objects say so, do to the objects what
/// they are documented to do, and leave the container intact. `cfb` opens
/// damaged images too: of those only what reading shows is trusted.
pub uninterp spec fn intact(file: Container) -> bool;

/// `after` holds the objects of `before` and is as intact.
pub open spec fn unchanged(before: Container, after: Container) -> bool {
    objects(after) == objects(before) && intact(after) == intact(before)
}

/// Path of the stream that holds the format version.
pub const VERSION_INFORMATION: &'static str = "/VERSION_INFORMATION";

/// Path of the stream that holds the lock state.
pub const FILE_PROTECTION: &'static str = "/FILE_PROTECTION";

/// Most bytes that a stream is sized to, or that are written to it, in one
/// call: what a `cfb` stream buffers before it turns to the container.
pub const MAX_WRITE: usize = 8192;

/// A character that upper-casing leaves alone and that may stand in a name.
pub open spec fn plain_char(c: char) -> bool {
    ||| 'A' <= c <= 'Z'
    ||| '0' <= c <= '9'
    ||| c == '_'
}

/// A path that names a child of the root by a name of plain characters,
/// short enough for a directory entry.
pub open spec fn plain_path(path: Seq<char>) -> bool {
    &&& 2 <= path.len() <= 32
    &&& path[0] == '/'
    &&& forall|i: int| 1 <= i < path.len() ==> plain_char(#[trigger] path[i])
}

/// No plain path resolves to anything.
pub open spec fn holds_nothing(objects: Objects) -> bool {
    forall|path: Seq<char>| plain_path(path) ==> !(#[trigger] objects.dom().contains(path))
}

/// Nothing is found at `path`.
pub open spec fn vacant(objects: Objects, path: Seq<char>) -> bool {
    !objects.dom().contains(path)
}

/// A stream is found at `path`.
pub open spec fn has_stream(objects: Objects, path: Seq<char>) -> bool {
    objects.dom().contains(path) && objects[path] is Some
}

/// The bytes of the stream at `path`.
pub open spec fn stream_at(objects: Objects, path: Seq<char>) -> Seq<u8>
    recommends
        has_stream(objects, path),
{
    objects[path].unwrap()
}

/// `after` has `len` bytes and agrees with `before` as far as both reach.
pub open spec fn resized(before: Seq<u8>, after: Seq<u8>, len: nat) -> bool {
    &&& after.len() == len
    &&& forall|i: int| 0 <= i < len && i < before.len() ==> after[i] == before[i]
}

/// `before` with `data` laid over its start; the result is as long as the
/// longer of the two.
pub open spec fn overwritten(before: Seq<u8>, data: Seq<u8>) -> Seq<u8> {
    if data.len() >= before.len() {
        data
    } else {
        data + before.subrange(data.len() as int, before.len() as int)
    }
}

/// The two stream paths are plain and differ.
pub proof fn lemma_stream_paths()
    ensures
        plain_path(VERSION_INFORMATION@),
        plain_path(FILE_PROTECTION@),
        VERSION_INFORMATION@ != FILE_PROTECTION@,
{
    reveal_strlit("/VERSION_INFORMATION");
    reveal_strlit("/FILE_PROTECTION");
    assert(VERSION_INFORMATION@.len() == 20);
    assert(FILE_PROTECTION@.len() == 16);
}

/// Opens the stream at `path` with `CompoundFile::open_stream` and asks for
/// `Stream::len`. Trusted: the call succeeds exactly when a stream is found
/// there and then gives its length; a failure is of kind `NotFound` exactly
/// when nothing is found there; the container is left as it was.
#[verifier::external_body]
pub(crate) fn stream_len(file: &mut Container, path: &str) -> (len: Result<u64, std::io::Error>)
    requires
        plain_path(path@),
    ensures
        unchanged(*old(file), *final(file)),
        len matches Ok(n) ==> has_stream(objects(*old(file)), path@)
            && n == stream_at(objects(*old(file)), path@).len(),
        len matches Err(error) ==> !has_stream(objects(*old(file)), path@)
            && (not_found(error) <==> vacant(objects(*old(file)), path@)),
{
    let stream = file.open_stream(path)?;
    Ok(stream.len())
}

/// Opens the stream at `path` with `CompoundFile::open_stream` and reads it
/// to its end with `Read::read_to_end`. Trusted: what is read is the whole
/// stream; the call fails where no stream is found, with kind `NotFound`
/// exactly when nothing is found there; the container is left as it was. In
/// an intact container a stream that is there is read.
#[verifier::external_body]
pub(crate) fn read_stream(file: &mut Container, path: &str) -> (read: Result<
    Vec<u8>,
    std::io::Error,
>)
    requires
        plain_path(path@),
    ensures
        unchanged(*old(file), *final(file)),
        read matches Ok(bytes) ==> has_stream(objects(*old(file)), path@)
            && bytes@ == stream_at(objects(*old(file)), path@),
        read matches Err(error) ==> (not_found(error) <==> vacant(objects(*old(file)), path@)),
        !has_stream(objects(*old(file)), path@) ==> read is Err,
        intact(*old(file)) && has_stream(objects(*old(file)), path@) ==> read is Ok,
{
    let mut stream = file.open_stream(path)?;
    let mut bytes = Vec::new();
    stream.read_to_end(&mut bytes)?;
    Ok(bytes)
}

/// Calls `CompoundFile::create` on an empty `Cursor`. Trusted: the call
/// succeeds, and gives an intact container in which no plain path resolves
/// to anything.
#[verifier::external_body]
pub(crate) fn create_container() -> (made: Result<Container, std::io::Error>)
    ensures
        made is Ok,
        made matches Ok(file) ==> intact(file) && holds_nothing(objects(file)),
{
    CompoundFile::create(Cursor::new(Vec::new()))
}

/// Calls `CompoundFile::create_new_stream` on an intact container. Trusted:
/// the call succeeds exactly when nothing is found at `path`; then an empty
/// stream is found there, nothing else has changed, and the container is
/// still intact. Where something is found there the call fails, with a kind
/// other than `NotFound`, and changes nothing.
#[verifier::external_body]
pub(crate) fn create_new_stream(file: &mut Container, path: &str) -> (made: Result<
    (),
    std::io::Error,
>)
    requires
        plain_path(path@),
        intact(*old(file)),
    ensures
        made is Ok <==> vacant(objects(*old(file)), path@),
        made is Ok ==> intact(*final(file)) && objects(*final(file)) == objects(
            *old(file),
        ).insert(path@, Some(Seq::empty())),
        made matches Err(error) ==> unchanged(*old(file), *final(file)) && !not_found(error),
{
    file.create_new_stream(path)?;
    Ok(())
}

/// Opens the stream at `path` with `CompoundFile::open_stream` and calls
/// `Stream::set_len`, on an intact container. Trusted: the call succeeds
/// exactly when a stream is found there; then the stream has `len` bytes and
/// keeps those of its old bytes that still fit, no other object has changed,
/// and the container is still intact. Bytes that were added are not
/// specified. Where no stream is found the call fails and changes nothing,
/// with kind `NotFound` exactly when nothing is found there.
#[verifier::external_body]
pub(crate) fn set_stream_len(file: &mut Container, path: &str, len: u64) -> (set: Result<
    (),
    std::io::Error,
>)
    requires
        plain_path(path@),
        len <= MAX_WRITE,
        intact(*old(file)),
    ensures
        set is Ok <==> has_stream(objects(*old(file)), path@),
        set is Ok ==> {
            &&& intact(*final(file))
            &&& has_stream(objects(*final(file)), path@)
            &&& objects(*final(file)) == objects(*old(file)).insert(
                path@,
                objects(*final(file))[path@],
            )
            &&& resized(
                stream_at(objects(*old(file)), path@),
                stream_at(objects(*final(file)), path@),
                len as nat,
            )
        },
        set matches Err(error) ==> unchanged(*old(file), *final(file)) && (not_found(error)
            <==> vacant(objects(*old(file)), path@)),
{
    let mut stream = file.open_stream(path)?;
    stream.set_len(len)
}

/// Opens the stream at `path` with `CompoundFile::open_stream`, writes
/// `data` at its start with `Write::write_all` and hands it to the container
/// with `Write::flush`, on an intact container. Trusted: the call succeeds
/// exactly when a stream is found there; then the stream is its old contents
/// with `data` laid over the start, no other object has changed, and the
/// container is still intact. Where no stream is found the call fails and
/// changes nothing, with kind `NotFound` exactly when nothing is found
/// there.
#[verifier::external_body]
pub(crate) fn write_stream(file: &mut Container, path: &str, data: &[u8]) -> (written: Result<
    (),
    std::io::Error,
>)
    requires
        plain_path(path@),
        data@.len() <= MAX_WRITE,
        intact(*old(file)),
    ensures
        written is Ok <==> has_stream(objects(*old(file)), path@),
        written is Ok ==> intact(*final(file)) && objects(*final(file)) == objects(
            *old(file),
        ).insert(path@, Some(overwritten(stream_at(objects(*old(file)), path@), data@))),
        written matches Err(error) ==> unchanged(*old(file), *final(file)) && (not_found(error)
            <==> vacant(objects(*old(file)), path@)),
{
    let mut stream = file.open_stream(path)?;
    stream.write_all(data)?;
    stream.flush()
}

/// Makes an empty container in memory. It is intact, and stays so under
/// every operation of this library.
pub fn new_container() -> (made: Result<Container, FtvFileError>)
    ensures
        made is Ok,
        made matches Ok(file) ==> intact(file) && holds_nothing(objects(file)),
{
    match create_container() {
        Ok(file) => Ok(file),
        Err(error) => Err(FtvFileError::IoError(error)),
    }
}

/// Stores `data` as the stream at `path`: a stream that is there is
/// replaced, one that is not is created. A storage at `path` is left alone
/// and reported as `IoError`. No other object is touched.
pub fn put_stream(file: &mut Container, path: &str, data: &[u8]) -> (put: Result<(), FtvFileError>)
    requires
        plain_path(path@),
        data@.len() <= MAX_WRITE,
        intact(*old(file)),
    ensures
        intact(*final(file)),
        put is Ok <==> vacant(objects(*old(file)), path@) || has_stream(objects(*old(file)), path@),
        put is Ok ==> objects(*final(file)) == objects(*old(file)).insert(path@, Some(data@)),
        put matches Err(error) ==> objects(*final(file)) == objects(*old(file)) && error
            is IoError,
{
    match stream_len(file, path) {
        Ok(_) => {},
        Err(error) => {
            if !is_not_found(&error) {
                return Err(FtvFileError::IoError(error));
            }
            match create_new_stream(file, path) {
                Ok(_) => {},
                Err(error) => {
                    return Err(FtvFileError::IoError(error));
                },
            }
        },
    }
    let ghost made = objects(*file);
    match set_stream_len(file, path, data.len() as u64) {
        Ok(_) => {},
        Err(error) => {
            return Err(FtvFileError::IoError(error));
        },
    }
    let ghost sized = objects(*file);
    match write_stream(file, path, data) {
        Ok(_) => {},
        Err(error) => {
            return Err(FtvFileError::IoError(error));
        },
    }
    proof {
        assert(overwritten(stream_at(sized, path@), data@) =~= data@);
        assert(objects(*file) =~= objects(*old(file)).insert(path@, Some(data@)));
    }
    Ok(())
}

} // verus!
