//! Reading what the container runtime printed: ids, names and image names.

use vstd::prelude::*;
use vstd::string::*;
use vstd::utf8::{decode_utf8, valid_utf8};
use crate::pump::{lookup_text, names_container};
use crate::text::{
    split_whitespace,
    strip_leading,
    texts,
    trim,
    trimmed,
    without_leading,
    words,
    CharClass,
};

verus! {

/// The error of `String::from_utf8`.
#[verifier::external_type_specification]
#[verifier::external_body]
pub struct ExFromUtf8Error(std::string::FromUtf8Error);

/// `String::from_utf8` takes the bytes that are valid UTF-8, and gives the
/// string that they encode.
pub assume_specification[ String::from_utf8 ](vec: Vec<u8>) -> (r: Result<
    String,
    std::string::FromUtf8Error,
>)
    ensures
        r is Ok <==> valid_utf8(vec@),
        r matches Ok(s) ==> s@ == decode_utf8(vec@),
;

/// Why a piece of the runtime's output could not be read.
#[derive(Clone, Copy, Debug, PartialEq, Eq, Structural)]
pub enum OutputError {
    /// The list of container ids is not valid UTF-8.
    InvalidContainerIds,
    /// The runtime could not inspect the container: it ended with an error.
    InspectFailed,
    /// The container's name is not valid UTF-8.
    InvalidContainerName,
    /// The runtime printed no name for the container.
    NoContainerName,
    /// The image's name is not valid UTF-8.
    InvalidImageName,
    /// A record has fewer fields than its format asks for.
    MissingField,
    /// The start time is no date and time in the form of RFC 3339.
    InvalidStartTime,
}

impl OutputError {
    /// The message of the error.
    pub open spec fn text(self) -> Seq<char> {
        match self {
            OutputError::InvalidContainerIds => "Failed to create string of container id's"@,
            OutputError::InspectFailed => "Failed to inspect container"@,
            OutputError::InvalidContainerName => "Failed to parse container name from output"@,
            OutputError::NoContainerName => "Failed to find a container name in output"@,
            OutputError::InvalidImageName => "Failed to parse image name from output"@,
            OutputError::MissingField => "Failed to parse record: a field is missing"@,
            OutputError::InvalidStartTime => "Failed to parse start_time"@,
        }
    }

    /// Returns the message of the error.
    pub fn message(&self) -> (r: String)
        ensures
            r@ == self.text(),
    {
        match self {
            OutputError::InvalidContainerIds => String::from_str(
                "Failed to create string of container id's",
            ),
            OutputError::InspectFailed => String::from_str("Failed to inspect container"),
            OutputError::InvalidContainerName => String::from_str(
                "Failed to parse container name from output",
            ),
            OutputError::NoContainerName => String::from_str(
                "Failed to find a container name in output",
            ),
            OutputError::InvalidImageName => String::from_str(
                "Failed to parse image name from output",
            ),
            OutputError::MissingField => String::from_str(
                "Failed to parse record: a field is missing",
            ),
            OutputError::InvalidStartTime => String::from_str("Failed to parse start_time"),
        }
    }
}

/// The name of a container as the runtime prints it: without the
/// whitespace around it and without the slashes in front of it.
pub open spec fn container_name_in(output: Seq<char>) -> Seq<char> {
    without_leading(trimmed(output), CharClass::Exactly('/'))
}

/// What a name lookup gives, from how `inspect` ended and what it printed.
/// It gives the name only where the runtime ended without error and printed
/// text that holds a name; a lookup that names nothing has failed.
pub open spec fn container_name_lookup(succeeded: bool, stdout: Seq<u8>) -> Result<
    Seq<char>,
    OutputError,
> {
    if !succeeded {
        Err(OutputError::InspectFailed)
    } else if !valid_utf8(stdout) {
        Err(OutputError::InvalidContainerName)
    } else if container_name_in(decode_utf8(stdout)).len() == 0 {
        Err(OutputError::NoContainerName)
    } else {
        Ok(container_name_in(decode_utf8(stdout)))
    }
}

/// The views of the outcomes of a run of lookups.
pub open spec fn lookups_text(lookups: Seq<Option<String>>) -> Seq<Option<Seq<char>>> {
    Seq::new(lookups.len(), |i: int| lookup_text(lookups[i]))
}

/// The names that a run of lookups found, in order: a lookup that failed,
/// or that gave an empty name, adds none.
pub open spec fn found(lookups: Seq<Option<Seq<char>>>) -> Seq<Seq<char>>
    decreases lookups.len(),
{
    if lookups.len() == 0 {
        Seq::empty()
    } else if names_container(lookups.last()) {
        found(lookups.drop_last()).push(lookups.last()->0)
    } else {
        found(lookups.drop_last())
    }
}

/// Reads the ids that `ps -q` printed: the words of its output.
pub fn parse_container_ids(stdout: Vec<u8>) -> (r: Result<Vec<String>, OutputError>)
    ensures
        r is Ok <==> valid_utf8(stdout@),
        r matches Ok(ids) ==> texts(ids@) == words(decode_utf8(stdout@)),
        r matches Err(e) ==> e == OutputError::InvalidContainerIds,
{
    match String::from_utf8(stdout) {
        Ok(output) => Ok(split_whitespace(output.as_str())),
        Err(_) => Err(OutputError::InvalidContainerIds),
    }
}

/// Reads the name that `inspect --format {{.Name}}` printed. `succeeded`
/// tells whether the runtime ended without error. A lookup that ended with
/// an error, or printed no name, has failed.
pub fn parse_container_name(succeeded: bool, stdout: Vec<u8>) -> (r: Result<String, OutputError>)
    ensures
        match r {
            Ok(name) => container_name_lookup(succeeded, stdout@) == Ok::<Seq<char>, OutputError>(
                name@,
            ),
            Err(e) => container_name_lookup(succeeded, stdout@) == Err::<Seq<char>, OutputError>(e),
        },
{
    if !succeeded {
        return Err(OutputError::InspectFailed);
    }
    match String::from_utf8(stdout) {
        Ok(output) => {
            let name = strip_leading(trim(output.as_str()), CharClass::Exactly('/'));
            if name.is_empty() {
                Err(OutputError::NoContainerName)
            } else {
                Ok(String::from_str(name))
            }
        },
        Err(_) => Err(OutputError::InvalidContainerName),
    }
}

/// Reads the image name that `inspect --format {{.Config.Image}}` printed.
pub fn parse_image_name(stdout: Vec<u8>) -> (r: Result<String, OutputError>)
    ensures
        r is Ok <==> valid_utf8(stdout@),
        r matches Ok(name) ==> name@ == trimmed(decode_utf8(stdout@)),
        r matches Err(e) ==> e == OutputError::InvalidImageName,
{
    match String::from_utf8(stdout) {
        Ok(output) => Ok(String::from_str(trim(output.as_str()))),
        Err(_) => Err(OutputError::InvalidImageName),
    }
}

/// Keeps the names of the lookups that gave one, in order.
pub fn keep_resolved(lookups: Vec<Option<String>>) -> (names: Vec<String>)
    ensures
        texts(names@) == found(lookups_text(lookups@)),
{
    let mut names: Vec<String> = Vec::new();
    let n = lookups.len();
    let mut i: usize = 0;
    while i < n
        invariant
            n == lookups@.len(),
            i <= n,
            texts(names@) == found(lookups_text(lookups@).take(i as int)),
        decreases n - i,
    {
        proof {
            let all = lookups_text(lookups@);
            assert(all.take(i + 1).drop_last() =~= all.take(i as int));
            assert(all.take(i + 1).last() == lookup_text(lookups@[i as int]));
        }
        match &lookups[i] {
            Some(name) => {
                if !name.as_str().is_empty() {
                    let name = name.clone();
                    assert(texts(names@.push(name)) =~= texts(names@).push(name@));
                    names.push(name);
                }
            },
            None => {},
        }
        i += 1;
    }
    proof {
        assert(lookups_text(lookups@).take(n as int) =~= lookups_text(lookups@));
    }
    names
}

} // verus!
