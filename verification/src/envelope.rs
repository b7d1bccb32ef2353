//! From a response to an outcome: a value, a set of choices, or a failure
//! with the place in the body at which it was found.

use crate::decode::{plain_fault, Decode, DecodeError, DecodeFault, ErrorKind};
use crate::json::{Json, JsonValue};
use crate::reader::{place_of, read, read_as, Document, MarksModel};
use vstd::prelude::*;

verus! {

/// The class of an HTTP status, as far as the reading of the body goes.
#[derive(Clone, Copy, Debug, PartialEq, Eq, Structural)]
pub enum StatusClass {
    /// The request was answered.
    Success,
    /// The request has several answers, and the body lists them.
    Redirect,
    /// The request failed.
    ClientOrServerError,
}

impl StatusClass {
    /// The class of the status with the number `code`: a redirection from
    /// 300 to 399, a failure from 400 on, a success below 300.
    pub open spec fn of(code: u16) -> StatusClass {
        if 300 <= code < 400 {
            StatusClass::Redirect
        } else if code >= 400 {
            StatusClass::ClientOrServerError
        } else {
            StatusClass::Success
        }
    }

    /// Tells the class of a status from its number.
    pub fn of_code(code: u16) -> (r: StatusClass)
        ensures
            r == Self::of(code),
    {
        if code >= 400 {
            StatusClass::ClientOrServerError
        } else if code >= 300 {
            StatusClass::Redirect
        } else {
            StatusClass::Success
        }
    }
}

/// A response as the transport hands it over.
#[derive(Clone, Debug, PartialEq, Eq)]
pub struct RawEnvelope {
    pub status: StatusClass,
    pub body: Vec<u8>,
}

/// The candidates of an ambiguous answer: each a record under the name that
/// tells it from the others, kept as it came.
pub type Choices = Vec<(String, Vec<(String, Json)>)>;

/// A failure to read a body, with what is needed to look into it.
#[derive(Clone, Debug, PartialEq, Eq)]
pub struct DecodeFailure {
    /// The byte of the body at which the failure was found: where the text
    /// stopped being JSON, or where the value at fault starts.
    pub offset: usize,
    /// The bytes of the body around `offset`.
    pub excerpt: Vec<u8>,
    /// What was wrong.
    pub cause: DecodeError,
}

/// What reading a response ends in.
#[derive(Debug, PartialEq)]
pub enum DecodeOutcome<T> {
    /// The body stands for a value of the target type.
    Value(T),
    /// The body lists several candidates; nobody has chosen among them.
    Ambiguous(Choices),
    /// The body does not stand for what the status promised.
    DecodeFailure(DecodeFailure),
}

/// How far an excerpt reaches to either side of the place of a failure.
pub const EXCERPT_RADIUS: usize = 200;

/// The bounds of the excerpt for a failure at `offset` in a body of `len`
/// bytes: the whole body where it has at most two radii, else what is less
/// than a radius before `offset` or after it.
pub open spec fn excerpt_bounds(len: int, offset: int) -> (int, int) {
    if len <= 2 * EXCERPT_RADIUS {
        (0, len)
    } else {
        let at = if offset <= len {
            offset
        } else {
            len
        };
        (
            if at >= EXCERPT_RADIUS {
                at - EXCERPT_RADIUS
            } else {
                0
            },
            if at + EXCERPT_RADIUS <= len {
                at + EXCERPT_RADIUS
            } else {
                len
            },
        )
    }
}

/// An excerpt lies within the body and holds at most two radii of bytes. Of
/// a body longer than that it holds the byte at `offset`, where there is
/// one.
pub proof fn lemma_excerpt_bounds(len: int, offset: int)
    requires
        0 <= len,
        0 <= offset,
    ensures
        ({
            let (from, to) = excerpt_bounds(len, offset);
            &&& 0 <= from <= to <= len
            &&& to - from <= 2 * EXCERPT_RADIUS
            &&& len <= 2 * EXCERPT_RADIUS ==> from == 0 && to == len
            &&& offset < len ==> from <= offset < to
        }),
{
}

/// Whether `failure` reports `cause`, found at `offset` in `body`.
pub open spec fn reports(failure: DecodeFailure, body: Seq<u8>, offset: int, cause: DecodeFault) -> bool {
    let (from, to) = excerpt_bounds(body.len() as int, offset);
    &&& failure.offset == offset
    &&& failure.excerpt@ == body.subrange(from, to)
    &&& failure.cause@ == cause
}

/// Reports a failure: the cause, the place, and the bytes around the place.
///
/// A body of at most 400 bytes is given whole. Of a longer one the excerpt
/// holds the 200 bytes before `offset` and the 200 bytes from `offset` on, as
/// far as the body has them. An `offset` beyond the body counts as its end.
pub fn parsing_error(error: DecodeError, offset: usize, text: &[u8]) -> (failure: DecodeFailure)
    ensures
        reports(failure, text@, offset as int, error@),
{
    let len = text.len();
    let (from, to): (usize, usize) = if len <= 2 * EXCERPT_RADIUS {
        (0, len)
    } else {
        let at: usize = if offset <= len {
            offset
        } else {
            len
        };
        (
            if at >= EXCERPT_RADIUS {
                at - EXCERPT_RADIUS
            } else {
                0
            },
            if at <= len - EXCERPT_RADIUS {
                at + EXCERPT_RADIUS
            } else {
                len
            },
        )
    };
    let mut excerpt: Vec<u8> = Vec::new();
    let mut i: usize = from;
    while i < to
        invariant
            from <= i <= to <= text.len(),
            excerpt@ == text@.subrange(from as int, i as int),
        decreases to - i,
    {
        excerpt.push(text[i]);
        assert(text@.subrange(from as int, i as int).push(text@[i as int]) == text@.subrange(
            from as int,
            i + 1,
        ));
        i += 1;
    }
    DecodeFailure { offset, excerpt, cause: error }
}

/// Whether `outcome` is what a body ends in, given what the body was read
/// as and whether the body is to list choices (`multi_selector`) or to hold
/// a `T`. A fault of the document is reported at the byte at which the value
/// at fault starts.
pub open spec fn classified<T: Decode>(
    outcome: DecodeOutcome<T>,
    body: Seq<u8>,
    document: Result<(JsonValue, MarksModel), int>,
    multi_selector: bool,
) -> bool {
    match document {
        Err(at) => outcome matches DecodeOutcome::DecodeFailure(failure) && reports(
            failure,
            body,
            at,
            plain_fault(ErrorKind::Syntax),
        ),
        Ok((j, marks)) => if multi_selector {
            match <Choices as Decode>::failure(j) {
                Some(cause) => outcome matches DecodeOutcome::DecodeFailure(failure) && reports(
                    failure,
                    body,
                    place_of(marks, cause.path),
                    cause,
                ),
                None => outcome matches DecodeOutcome::Ambiguous(choices) && choices.reads(j),
            }
        } else {
            match T::failure(j) {
                Some(cause) => outcome matches DecodeOutcome::DecodeFailure(failure) && reports(
                    failure,
                    body,
                    place_of(marks, cause.path),
                    cause,
                ),
                None => outcome matches DecodeOutcome::Value(value) && value.reads(j),
            }
        },
    }
}

/// The model of what a body was read as.
pub open spec fn read_view(document: Result<Document, usize>) -> Result<(JsonValue, MarksModel), int> {
    match document {
        Ok(document) => Ok((document.root@, document.marks@)),
        Err(at) => Err(at as int),
    }
}

/// Decides what a body stands for, once it was read.
///
/// Where the text is no JSON, the outcome is a failure at the byte where it
/// stopped being so. A document of an ambiguous answer is read as the choices
/// it lists, any other as a `T`; where that fails, the outcome is a failure
/// with the fault, at the byte at which the value at fault starts.
pub fn classify<T: Decode>(text: &[u8], document: Result<Document, usize>, multi_selector: bool) -> (outcome:
    DecodeOutcome<T>)
    ensures
        classified(outcome, text@, read_view(document), multi_selector),
{
    match document {
        Err(at) => DecodeOutcome::DecodeFailure(parsing_error(DecodeError::plain(ErrorKind::Syntax), at, text)),
        Ok(document) => {
            if multi_selector {
                match <Choices as Decode>::decode(&document.root) {
                    Ok(choices) => DecodeOutcome::Ambiguous(choices),
                    Err(e) => {
                        let at = document.marks.place(&e.path);
                        DecodeOutcome::DecodeFailure(parsing_error(e, at, text))
                    },
                }
            } else {
                match T::decode(&document.root) {
                    Ok(value) => DecodeOutcome::Value(value),
                    Err(e) => {
                        let at = document.marks.place(&e.path);
                        DecodeOutcome::DecodeFailure(parsing_error(e, at, text))
                    },
                }
            }
        },
    }
}

/// Reads the body of a response.
///
/// `multi_selector` says that the status announced several answers. The body
/// is read once, and the outcome is the one that [`classify`] gives for what
/// it was read as.
pub fn deserialize_data<T: Decode>(text: &[u8], multi_selector: bool) -> (outcome: DecodeOutcome<T>)
    ensures
        classified(outcome, text@, read_as(text@), multi_selector),
{
    classify(text, read(text), multi_selector)
}

/// Reads a response: the body of a redirection as the choices it lists, the
/// body of a success as a `T`. A response that failed has no body to read;
/// the transport reports it before anything is decoded.
pub fn decode<T: Decode>(status: StatusClass, body: &[u8]) -> (outcome: DecodeOutcome<T>)
    requires
        status != StatusClass::ClientOrServerError,
    ensures
        classified(outcome, body@, read_as(body@), status == StatusClass::Redirect),
{
    let multi_selector = match status {
        StatusClass::Redirect => true,
        _ => false,
    };
    deserialize_data(body, multi_selector)
}

impl RawEnvelope {
    /// Reads the response: [`decode`] on its status and its body.
    pub fn decode<T: Decode>(&self) -> (outcome: DecodeOutcome<T>)
        requires
            self.status != StatusClass::ClientOrServerError,
        ensures
            classified(outcome, self.body@, read_as(self.body@), self.status == StatusClass::Redirect),
    {
        decode(self.status, self.body.as_slice())
    }
}

/// What to do with a body that cannot be read.
#[derive(Clone, Copy, Debug, PartialEq, Eq, Structural)]
pub enum Mode {
    /// A body that cannot be read shows that the records of this crate are
    /// out of date: the request is given up for good.
    Strict,
    /// A body that cannot be read is an error like any other.
    Lenient,
}

/// Why a request gave no value. `E` is the error of the transport.
#[derive(Debug)]
pub enum WynnApiError<E> {
    /// The transport failed.
    ConnectionError(E),
    /// The API has several answers and lists them.
    MultipleChoices(Choices),
    /// The body could not be read.
    DeserializeError(DecodeFailure),
}

/// What a request ends in, once the body was read.
#[derive(Debug)]
pub enum Resolution<T, E> {
    /// The caller gets a value or an error.
    Settled(Result<T, WynnApiError<E>>),
    /// The request is given up: the caller of this crate is to stop with the
    /// failure as its reason.
    Abort(DecodeFailure),
}

/// Decides what a request ends in.
///
/// A value is handed on, and so are the choices of an ambiguous answer, as
/// an error that holds them. A failure to read the body is an error in the
/// lenient mode and the end of the request in the strict one.
pub fn settle<T, E>(mode: Mode, outcome: DecodeOutcome<T>) -> (r: Resolution<T, E>)
    ensures
        r == match outcome {
            DecodeOutcome::Value(value) => Resolution::<T, E>::Settled(Ok(value)),
            DecodeOutcome::Ambiguous(choices) => Resolution::Settled(Err(WynnApiError::MultipleChoices(choices))),
            DecodeOutcome::DecodeFailure(failure) => if mode == Mode::Strict {
                Resolution::Abort(failure)
            } else {
                Resolution::Settled(Err(WynnApiError::DeserializeError(failure)))
            },
        },
{
    match outcome {
        DecodeOutcome::Value(value) => Resolution::Settled(Ok(value)),
        DecodeOutcome::Ambiguous(choices) => Resolution::Settled(Err(WynnApiError::MultipleChoices(choices))),
        DecodeOutcome::DecodeFailure(failure) => match mode {
            Mode::Strict => Resolution::Abort(failure),
            Mode::Lenient => Resolution::Settled(Err(WynnApiError::DeserializeError(failure))),
        },
    }
}

} // verus!
