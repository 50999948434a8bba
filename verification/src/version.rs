//! The format version stamped into a container, and how it is read.

use vstd::prelude::*;
use vstd::std_specs::cmp::PartialOrdSpecImpl;
use vstd::string::StringExecFns;
use core::cmp::Ordering;
use crate::container::{
    has_stream, intact, lemma_stream_paths, objects, read_stream, stream_at, unchanged, vacant,
    Container, Objects, VERSION_INFORMATION,
};
use crate::error::{is_not_found, not_found, FTypeError, FtvFileError};

verus! {

/// Number of bytes in a version stream.
pub const VERSION_LEN: usize = 3;

/// First major revision of the current container layout. Files below it are
/// old-format files, which carry no protection stream.
pub const FIRST_CURRENT_MAJOR: u8 = 5;

/// Lowest major revision that holds what is needed to restore a project.
pub const FIRST_RESTORABLE_MAJOR: u8 = 4;

/// Holds the version number of a file. Both numbers are the bytes found in
/// the container, whatever they are.
#[derive(Debug, Clone, Copy, PartialEq, Eq, Ord, Structural)]
pub struct FileVersion {
    /// Major revision number.
    pub major_rev: u8,
    /// Minor revision number.
    pub minor_rev: u8,
}

/// The decimal digit for `d`.
pub open spec fn digit(d: u8) -> char
    recommends
        d < 10,
{
    if d == 0 {
        '0'
    } else if d == 1 {
        '1'
    } else if d == 2 {
        '2'
    } else if d == 3 {
        '3'
    } else if d == 4 {
        '4'
    } else if d == 5 {
        '5'
    } else if d == 6 {
        '6'
    } else if d == 7 {
        '7'
    } else if d == 8 {
        '8'
    } else {
        '9'
    }
}

/// `n` in decimal, without leading zeros.
pub open spec fn decimal(n: u8) -> Seq<char> {
    if n >= 100 {
        seq![digit(n / 100), digit((n / 10) % 10), digit(n % 10)]
    } else if n >= 10 {
        seq![digit(n / 10), digit(n % 10)]
    } else {
        seq![digit(n)]
    }
}

/// The text of a version: major, a dot, minor.
pub open spec fn version_text(version: FileVersion) -> Seq<char> {
    decimal(version.major_rev) + seq!['.'] + decimal(version.minor_rev)
}

/// What a version stream of the bytes `stream` decodes to. The first byte
/// carries no meaning.
pub open spec fn decoded(stream: Seq<u8>) -> Result<FileVersion, FTypeError> {
    if stream.len() == 3 {
        Ok(FileVersion { major_rev: stream[1], minor_rev: stream[2] })
    } else {
        Err(FTypeError::InvalidVersion)
    }
}

/// The result that a version stream of the bytes `stream` stands for.
pub open spec fn version_of_stream(stream: Seq<u8>) -> Result<FileVersion, FtvFileError> {
    match decoded(stream) {
        Ok(version) => Ok(version),
        Err(kind) => Err(FtvFileError::FileTypeError(kind)),
    }
}

/// What becomes of an attempt to read the version stream: its bytes are
/// decoded, a missing stream is `NoVersion`, any other failure is passed on.
pub open spec fn version_of_read(read: Result<Vec<u8>, std::io::Error>) -> Result<
    FileVersion,
    FtvFileError,
> {
    match read {
        Ok(bytes) => version_of_stream(bytes@),
        Err(error) => if not_found(error) {
            Err(FtvFileError::FileTypeError(FTypeError::NoVersion))
        } else {
            Err(FtvFileError::IoError(error))
        },
    }
}

/// How the result of reading the version relates to the container it was
/// read from, whose objects are `objects` and which is intact or not. Each
/// result names the one state of the version stream that gives it. In an
/// intact container `IoError` is left for a storage in the place of the
/// stream; a damaged one may give it for a stream it cannot read.
pub open spec fn version_outcome(
    objects: Objects,
    intact: bool,
    result: Result<FileVersion, FtvFileError>,
) -> bool {
    match result {
        Ok(version) => has_stream(objects, VERSION_INFORMATION@) && decoded(
            stream_at(objects, VERSION_INFORMATION@),
        ) == Ok::<FileVersion, FTypeError>(version),
        Err(FtvFileError::FileTypeError(FTypeError::NoVersion)) => vacant(
            objects,
            VERSION_INFORMATION@,
        ),
        Err(FtvFileError::FileTypeError(FTypeError::InvalidVersion)) => has_stream(
            objects,
            VERSION_INFORMATION@,
        ) && stream_at(objects, VERSION_INFORMATION@).len() != 3,
        Err(FtvFileError::IoError(error)) => !vacant(objects, VERSION_INFORMATION@) && !not_found(
            error,
        ) && (intact ==> !has_stream(objects, VERSION_INFORMATION@)),
    }
}

impl FileVersion {
    /// True for files older than the current container layout.
    pub fn is_old(&self) -> (old_format: bool)
        ensures
            old_format <==> self.major_rev < 5,
    {
        self.major_rev < FIRST_CURRENT_MAJOR
    }

    /// True for files that can be restored to a project.
    pub fn is_restorable(&self) -> (restorable: bool)
        ensures
            restorable <==> self.major_rev >= 4,
    {
        self.major_rev >= FIRST_RESTORABLE_MAJOR
    }

    /// The version as text: `major.minor`, both in decimal.
    pub fn to_string(&self) -> (text: String)
        ensures
            text@ == version_text(*self),
    {
        let mut text = String::new();
        push_decimal(&mut text, self.major_rev);
        text.append(".");
        proof {
            reveal_strlit(".");
            assert("."@ =~= seq!['.']);
        }
        push_decimal(&mut text, self.minor_rev);
        text
    }
}

impl Default for FileVersion {
    /// Version 0.0.
    fn default() -> (version: FileVersion)
        ensures
            version == (FileVersion { major_rev: 0, minor_rev: 0 }),
    {
        FileVersion { major_rev: 0, minor_rev: 0 }
    }
}

impl PartialOrd for FileVersion {
    /// Orders versions by major revision, then by minor revision.
    fn partial_cmp(&self, other: &FileVersion) -> (order: Option<Ordering>) {
        if self.major_rev < other.major_rev {
            Some(Ordering::Less)
        } else if self.major_rev > other.major_rev {
            Some(Ordering::Greater)
        } else if self.minor_rev < other.minor_rev {
            Some(Ordering::Less)
        } else if self.minor_rev > other.minor_rev {
            Some(Ordering::Greater)
        } else {
            Some(Ordering::Equal)
        }
    }
}

impl PartialOrdSpecImpl for FileVersion {
    open spec fn obeys_partial_cmp_spec() -> bool {
        true
    }

    open spec fn partial_cmp_spec(&self, other: &FileVersion) -> Option<Ordering> {
        if self.major_rev < other.major_rev {
            Some(Ordering::Less)
        } else if self.major_rev > other.major_rev {
            Some(Ordering::Greater)
        } else if self.minor_rev < other.minor_rev {
            Some(Ordering::Less)
        } else if self.minor_rev > other.minor_rev {
            Some(Ordering::Greater)
        } else {
            Some(Ordering::Equal)
        }
    }
}

/// The text of one decimal digit.
fn digit_text(d: u8) -> (text: &'static str)
    requires
        d < 10,
    ensures
        text@ == seq![digit(d)],
{
    proof {
        reveal_strlit("0");
        reveal_strlit("1");
        reveal_strlit("2");
        reveal_strlit("3");
        reveal_strlit("4");
        reveal_strlit("5");
        reveal_strlit("6");
        reveal_strlit("7");
        reveal_strlit("8");
        reveal_strlit("9");
    }
    let text = if d == 0 {
        "0"
    } else if d == 1 {
        "1"
    } else if d == 2 {
        "2"
    } else if d == 3 {
        "3"
    } else if d == 4 {
        "4"
    } else if d == 5 {
        "5"
    } else if d == 6 {
        "6"
    } else if d == 7 {
        "7"
    } else if d == 8 {
        "8"
    } else {
        "9"
    };
    assert(text@ =~= seq![digit(d)]);
    text
}

/// Appends `n` in decimal to `text`.
fn push_decimal(text: &mut String, n: u8)
    ensures
        final(text)@ == old(text)@ + decimal(n),
{
    if n >= 100 {
        text.append(digit_text(n / 100));
    }
    if n >= 10 {
        text.append(digit_text((n / 10) % 10));
    }
    text.append(digit_text(n % 10));
    assert(text@ =~= old(text)@ + decimal(n));
}

/// Decodes the bytes of a version stream: exactly three bytes, of which the
/// second is the major and the third the minor revision.
pub fn decode_version(stream: &[u8]) -> (version: Result<FileVersion, FTypeError>)
    ensures
        version == decoded(stream@),
        stream@.len() == 3 ==> version == Ok::<FileVersion, FTypeError>(
            FileVersion { major_rev: stream@[1], minor_rev: stream@[2] },
        ),
        stream@.len() != 3 ==> version == Err::<FileVersion, FTypeError>(
            FTypeError::InvalidVersion,
        ),
{
    if stream.len() == VERSION_LEN {
        Ok(FileVersion { major_rev: stream[1], minor_rev: stream[2] })
    } else {
        Err(FTypeError::InvalidVersion)
    }
}

/// Turns what reading the version stream gave into the version, or into the
/// failure that is reported for it.
pub fn version_from_read(read: Result<Vec<u8>, std::io::Error>) -> (version: Result<
    FileVersion,
    FtvFileError,
>)
    ensures
        version == version_of_read(read),
{
    match read {
        Ok(bytes) => match decode_version(bytes.as_slice()) {
            Ok(version) => Ok(version),
            Err(kind) => Err(FtvFileError::FileTypeError(kind)),
        },
        Err(error) => if is_not_found(&error) {
            Err(FtvFileError::FileTypeError(FTypeError::NoVersion))
        } else {
            Err(FtvFileError::IoError(error))
        },
    }
}

/// Among the results that reading a version can give for a container,
/// `NoVersion` is the one that comes when nothing is found at the path of
/// the version stream, and it comes only then.
pub proof fn lemma_no_version_iff_vacant(
    objects: Objects,
    intact: bool,
    result: Result<FileVersion, FtvFileError>,
)
    requires
        version_outcome(objects, intact, result),
    ensures
        vacant(objects, VERSION_INFORMATION@) <==> result == Err::<FileVersion, FtvFileError>(
            FtvFileError::FileTypeError(FTypeError::NoVersion),
        ),
{
}

/// For an intact container with a version stream, the result of reading
/// the version is fixed by the bytes of the stream alone.
pub proof fn lemma_version_of_intact(objects: Objects, result: Result<FileVersion, FtvFileError>)
    requires
        version_outcome(objects, true, result),
        has_stream(objects, VERSION_INFORMATION@),
    ensures
        result == version_of_stream(stream_at(objects, VERSION_INFORMATION@)),
{
}

/// Reads the version that `file` was written as. The container is left as
/// it was.
///
/// With no version stream the result is `NoVersion`; with one that is not
/// three bytes long it is `InvalidVersion`; with one of three bytes it is
/// the version made of the second and the third. A storage in the place of
/// the stream gives `IoError`, and so may a stream in a damaged container.
pub fn get_version(file: &mut Container) -> (version: Result<FileVersion, FtvFileError>)
    ensures
        unchanged(*old(file), *final(file)),
        version_outcome(objects(*old(file)), intact(*old(file)), version),
        vacant(objects(*old(file)), VERSION_INFORMATION@) ==> version == Err::<
            FileVersion,
            FtvFileError,
        >(FtvFileError::FileTypeError(FTypeError::NoVersion)),
        intact(*old(file)) && has_stream(objects(*old(file)), VERSION_INFORMATION@) ==> version
            == version_of_stream(stream_at(objects(*old(file)), VERSION_INFORMATION@)),
        has_stream(objects(*old(file)), VERSION_INFORMATION@) ==> version == version_of_stream(
            stream_at(objects(*old(file)), VERSION_INFORMATION@),
        ) || (version is Err && version->Err_0 is IoError),
{
    proof {
        lemma_stream_paths();
    }
    let read = read_stream(file, VERSION_INFORMATION);
    version_from_read(read)
}

} // verus!
