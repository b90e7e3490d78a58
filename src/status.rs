use vstd::prelude::*;
use vstd::string::StringExecFns;

verus! {

/// The native status code of success.
pub const STATUS_OK: u32 = 0;

/// The largest status code the native library documents.
pub const STATUS_CODE_MAX: u32 = 17;

/// The closed taxonomy of native status codes, with a catch-all for codes
/// outside the documented set.
#[derive(PartialEq, Eq, Structural, Clone, Copy, Debug)]
pub enum StatusErrorKind {
    Cancelled,
    Unknown,
    InvalidArgument,
    DeadlineExceeded,
    NotFound,
    AlreadyExists,
    PermissionDenied,
    ResourceExhausted,
    FailedPrecondition,
    Aborted,
    OutOfRange,
    Unimplemented,
    Internal,
    Unavailable,
    DataLoss,
    Unauthenticated,
    Deferred,
    UnknownStatus,
}

/// The taxonomy entry of a native status code.
pub open spec fn kind_of_code(code: u32) -> StatusErrorKind {
    if code == 1 {
        StatusErrorKind::Cancelled
    } else if code == 2 {
        StatusErrorKind::Unknown
    } else if code == 3 {
        StatusErrorKind::InvalidArgument
    } else if code == 4 {
        StatusErrorKind::DeadlineExceeded
    } else if code == 5 {
        StatusErrorKind::NotFound
    } else if code == 6 {
        StatusErrorKind::AlreadyExists
    } else if code == 7 {
        StatusErrorKind::PermissionDenied
    } else if code == 8 {
        StatusErrorKind::ResourceExhausted
    } else if code == 9 {
        StatusErrorKind::FailedPrecondition
    } else if code == 10 {
        StatusErrorKind::Aborted
    } else if code == 11 {
        StatusErrorKind::OutOfRange
    } else if code == 12 {
        StatusErrorKind::Unimplemented
    } else if code == 13 {
        StatusErrorKind::Internal
    } else if code == 14 {
        StatusErrorKind::Unavailable
    } else if code == 15 {
        StatusErrorKind::DataLoss
    } else if code == 16 {
        StatusErrorKind::Unauthenticated
    } else if code == 17 {
        StatusErrorKind::Deferred
    } else {
        StatusErrorKind::UnknownStatus
    }
}

/// The native status code of a taxonomy entry; the catch-all has none.
pub open spec fn code_of_kind(kind: StatusErrorKind) -> u32 {
    match kind {
        StatusErrorKind::Cancelled => 1,
        StatusErrorKind::Unknown => 2,
        StatusErrorKind::InvalidArgument => 3,
        StatusErrorKind::DeadlineExceeded => 4,
        StatusErrorKind::NotFound => 5,
        StatusErrorKind::AlreadyExists => 6,
        StatusErrorKind::PermissionDenied => 7,
        StatusErrorKind::ResourceExhausted => 8,
        StatusErrorKind::FailedPrecondition => 9,
        StatusErrorKind::Aborted => 10,
        StatusErrorKind::OutOfRange => 11,
        StatusErrorKind::Unimplemented => 12,
        StatusErrorKind::Internal => 13,
        StatusErrorKind::Unavailable => 14,
        StatusErrorKind::DataLoss => 15,
        StatusErrorKind::Unauthenticated => 16,
        StatusErrorKind::Deferred => 17,
        StatusErrorKind::UnknownStatus => 0,
    }
}

impl StatusErrorKind {
    /// Maps a native status code into the taxonomy; never fails.
    pub fn from_code(code: u32) -> (r: StatusErrorKind)
        ensures
            r == kind_of_code(code),
    {
        match code {
            1 => StatusErrorKind::Cancelled,
            2 => StatusErrorKind::Unknown,
            3 => StatusErrorKind::InvalidArgument,
            4 => StatusErrorKind::DeadlineExceeded,
            5 => StatusErrorKind::NotFound,
            6 => StatusErrorKind::AlreadyExists,
            7 => StatusErrorKind::PermissionDenied,
            8 => StatusErrorKind::ResourceExhausted,
            9 => StatusErrorKind::FailedPrecondition,
            10 => StatusErrorKind::Aborted,
            11 => StatusErrorKind::OutOfRange,
            12 => StatusErrorKind::Unimplemented,
            13 => StatusErrorKind::Internal,
            14 => StatusErrorKind::Unavailable,
            15 => StatusErrorKind::DataLoss,
            16 => StatusErrorKind::Unauthenticated,
            17 => StatusErrorKind::Deferred,
            _ => StatusErrorKind::UnknownStatus,
        }
    }

    /// The native status code of this entry. The catch-all has no native
    /// representative, so it is not a valid receiver.
    pub fn code(&self) -> (r: u32)
        requires
            *self != StatusErrorKind::UnknownStatus,
        ensures
            r == code_of_kind(*self),
            1 <= r <= STATUS_CODE_MAX,
    {
        match self {
            StatusErrorKind::Cancelled => 1,
            StatusErrorKind::Unknown => 2,
            StatusErrorKind::InvalidArgument => 3,
            StatusErrorKind::DeadlineExceeded => 4,
            StatusErrorKind::NotFound => 5,
            StatusErrorKind::AlreadyExists => 6,
            StatusErrorKind::PermissionDenied => 7,
            StatusErrorKind::ResourceExhausted => 8,
            StatusErrorKind::FailedPrecondition => 9,
            StatusErrorKind::Aborted => 10,
            StatusErrorKind::OutOfRange => 11,
            StatusErrorKind::Unimplemented => 12,
            StatusErrorKind::Internal => 13,
            StatusErrorKind::Unavailable => 14,
            StatusErrorKind::DataLoss => 15,
            StatusErrorKind::Unauthenticated => 16,
            StatusErrorKind::Deferred => 17,
            StatusErrorKind::UnknownStatus => 0,
        }
    }
}

impl From<u32> for StatusErrorKind {
    fn from(code: u32) -> (r: StatusErrorKind)
        ensures
            r == kind_of_code(code),
    {
        StatusErrorKind::from_code(code)
    }
}

impl vstd::std_specs::convert::FromSpecImpl<u32> for StatusErrorKind {
    open spec fn obeys_from_spec() -> bool {
        true
    }

    open spec fn from_spec(code: u32) -> StatusErrorKind {
        kind_of_code(code)
    }
}

/// Every documented entry maps to a native code and back to itself.
pub proof fn lemma_kind_code_round_trip(kind: StatusErrorKind)
    requires
        kind != StatusErrorKind::UnknownStatus,
    ensures
        kind_of_code(code_of_kind(kind)) == kind,
        1 <= code_of_kind(kind) <= STATUS_CODE_MAX,
{
}

/// Every documented failure code maps into the taxonomy and back to itself;
/// every other code, success included, falls into the catch-all.
pub proof fn lemma_code_kind_round_trip(code: u32)
    ensures
        1 <= code <= STATUS_CODE_MAX ==> kind_of_code(code) != StatusErrorKind::UnknownStatus
            && code_of_kind(kind_of_code(code)) == code,
        !(1 <= code <= STATUS_CODE_MAX) ==> kind_of_code(code) == StatusErrorKind::UnknownStatus,
{
}

/// The native status code a raw status value carries in its low bits.
pub open spec fn code_of_raw(raw: usize) -> u32 {
    (raw % 32) as u32
}

/// A native status value: zero is success, anything else a failure whose code
/// sits in the low bits.
#[derive(PartialEq, Eq, Structural, Debug)]
pub struct Status {
    raw: usize,
}

/// The status that joining `first` with `second` yields: the first failure is
/// kept, and a success leaves the other status as it is.
pub open spec fn joined(first: Status, second: Status) -> Status {
    if first.raw_value() == 0 {
        second
    } else {
        first
    }
}

impl Status {
    /// The raw native value of this status.
    pub closed spec fn raw_value(&self) -> usize {
        self.raw
    }

    /// Wraps a raw status value returned by a native entry point.
    pub fn from_raw(raw: usize) -> (r: Status)
        ensures
            r.raw_value() == raw,
    {
        Status { raw }
    }

    /// The raw native value, for handing back to the native library.
    pub fn raw(&self) -> (r: usize)
        ensures
            r == self.raw_value(),
    {
        self.raw
    }

    /// A failure status of the given kind with no payload.
    pub fn from_code(kind: StatusErrorKind) -> (r: Status)
        requires
            kind != StatusErrorKind::UnknownStatus,
        ensures
            r.raw_value() == code_of_kind(kind) as usize,
            r.raw_value() != 0,
            kind_of_code(code_of_raw(r.raw_value())) == kind,
    {
        let code = kind.code();
        Status { raw: code as usize }
    }

    /// Whether this is the success sentinel.
    pub fn is_ok(&self) -> (r: bool)
        ensures
            r == (self.raw_value() == 0),
    {
        self.raw == 0
    }

    /// The native status code carried by this status.
    pub fn code(&self) -> (r: u32)
        ensures
            r == code_of_raw(self.raw_value()),
    {
        (self.raw % 32) as u32
    }

    /// The taxonomy entry of this status.
    pub fn kind(&self) -> (r: StatusErrorKind)
        ensures
            r == kind_of_code(code_of_raw(self.raw_value())),
    {
        StatusErrorKind::from_code(self.code())
    }

    /// `Ok` on success, otherwise an error that owns this status.
    pub fn to_result(self) -> (r: Result<(), StatusError>)
        ensures
            r is Ok <==> self.raw_value() == 0,
            r matches Err(e) ==> e.status == self,
    {
        if self.is_ok() {
            Ok(())
        } else {
            Err(StatusError { status: self })
        }
    }

    /// Joins two statuses into one, keeping the first failure.
    pub fn chain(self, other: Status) -> (r: Status)
        ensures
            r == joined(self, other),
    {
        if self.is_ok() {
            other
        } else {
            self
        }
    }
}

/// A failed status, owned by the error that reports it.
#[derive(PartialEq, Eq, Structural, Debug)]
pub struct StatusError {
    pub status: Status,
}

/// The debug rendering (quoted and escaped) of a string.
pub uninterp spec fn debug_quoted(s: Seq<char>) -> Seq<char>;

/// Relies on `<str as Debug>::fmt`: the quoted, escaped form of the text,
/// which depends on the characters alone.
#[verifier::external_body]
fn quote(s: &str) -> (r: String)
    ensures
        r@ == debug_quoted(s@),
{
    format!("{:?}", s)
}

/// The text shown for a failure whose native rendering is `rendered`, or
/// for one the native library could not render.
pub open spec fn status_message(rendered: Option<Seq<char>>) -> Seq<char> {
    match rendered {
        Some(text) => "Status: "@ + debug_quoted(text),
        None => "Status: <failed to convert to string>"@,
    }
}

impl StatusError {
    /// Frames the native rendering of the failure (`None` when the native
    /// library could not render it) as the error's message.
    pub fn message(rendered: Option<&str>) -> (r: String)
        ensures
            r@ == status_message(
                match rendered {
                    Some(text) => Some(text@),
                    None => None,
                },
            ),
    {
        match rendered {
            Some(text) => {
                let mut out = String::from_str("Status: ");
                let quoted = quote(text);
                out.append(quoted.as_str());
                out
            },
            None => String::from_str("Status: <failed to convert to string>"),
        }
    }

    /// The taxonomy entry of the failure.
    pub fn kind(&self) -> (r: StatusErrorKind)
        ensures
            r == kind_of_code(code_of_raw(self.status.raw_value())),
    {
        self.status.kind()
    }
}

/// Joining two successes yields success; joining a success with a failure, in
/// either order, yields that failure unchanged.
pub proof fn lemma_join_with_success(first: Status, second: Status)
    ensures
        first.raw_value() == 0 && second.raw_value() == 0 ==> joined(first, second).raw_value() == 0,
        first.raw_value() == 0 ==> joined(first, second) == second,
        second.raw_value() == 0 ==> joined(first, second) == first,
        first.raw_value() != 0 ==> joined(first, second) == first,
{
}

} // verus!
