//! How failures are shown to a client: a status for each kind of failure, and the body that
//! carries the message.

use vstd::prelude::*;

verus! {

/// The statuses that this service answers with.
#[derive(Clone, Copy, Debug, PartialEq, Eq, Structural, Hash)]
pub enum Status {
    Success,
    Created,
    BadRequest,
    NotFound,
    PayloadTooLarge,
    UnprocessableEntity,
    InternalServerError,
}

impl Status {
    /// The number of the status on the wire.
    pub open spec fn spec_code(self) -> u16 {
        match self {
            Status::Success => 200,
            Status::Created => 201,
            Status::BadRequest => 400,
            Status::NotFound => 404,
            Status::PayloadTooLarge => 413,
            Status::UnprocessableEntity => 422,
            Status::InternalServerError => 500,
        }
    }

    /// The number of the status on the wire.
    #[verifier::when_used_as_spec(spec_code)]
    pub fn code(self) -> (code: u16)
        ensures
            code == self.spec_code(),
    {
        match self {
            Status::Success => 200,
            Status::Created => 201,
            Status::BadRequest => 400,
            Status::NotFound => 404,
            Status::PayloadTooLarge => 413,
            Status::UnprocessableEntity => 422,
            Status::InternalServerError => 500,
        }
    }

    /// The status with the given number, where this service uses that number.
    pub fn from_code(code: u16) -> (status: Option<Status>)
        ensures
            match status {
                Some(s) => s.spec_code() == code,
                None => forall|s: Status| s.spec_code() != code,
            },
    {
        if code == 200 {
            Some(Status::Success)
        } else if code == 201 {
            Some(Status::Created)
        } else if code == 400 {
            Some(Status::BadRequest)
        } else if code == 404 {
            Some(Status::NotFound)
        } else if code == 413 {
            Some(Status::PayloadTooLarge)
        } else if code == 422 {
            Some(Status::UnprocessableEntity)
        } else if code == 500 {
            Some(Status::InternalServerError)
        } else {
            None
        }
    }

    /// Whether the status reports a failure of the service or of something it depends on.
    pub open spec fn is_server_error(self) -> bool {
        500 <= self.spec_code()
    }
}

/// A failure that knows the status it is answered with. Each kind of failure maps to its
/// status in one place, by a match over its variants.
pub trait IntoStatus {
    /// The status of this failure.
    spec fn status(&self) -> Status;

    /// The status of this failure.
    fn into_status(&self) -> (status: Status)
        ensures
            status == self.status(),
    ;
}

/// Nothing went wrong.
impl IntoStatus for () {
    open spec fn status(&self) -> Status {
        Status::Success
    }

    fn into_status(&self) -> (status: Status) {
        Status::Success
    }
}

/// A status is its own status.
impl IntoStatus for Status {
    open spec fn status(&self) -> Status {
        *self
    }

    fn into_status(&self) -> (status: Status) {
        *self
    }
}

/// The body of every failure response: the message under the key `error`.
#[derive(Debug, Clone, PartialEq, Eq, Hash)]
pub struct ErrorBody {
    pub error: String,
}

impl ErrorBody {
    /// The body that carries `message`.
    pub fn new(message: String) -> (body: Self)
        ensures
            body.error@ == message@,
    {
        ErrorBody { error: message }
    }
}

/// What stands in for the detail of a failure of the service where the detail is withheld.
pub open spec fn internal_error_text() -> Seq<char> {
    "internal server error"@
}

/// The message that a client is shown for a failure with the given status and detail. The
/// detail of a failure of the service is shown only where `expose_detail` is set, as it is
/// outside production; a client's own mistake is always explained.
pub open spec fn shown_message(status: Status, detail: Seq<char>, expose_detail: bool) -> Seq<
    char,
> {
    if status.is_server_error() && !expose_detail {
        internal_error_text()
    } else {
        detail
    }
}

/// Builds the body for a failure.
pub fn error_body(status: Status, detail: String, expose_detail: bool) -> (body: ErrorBody)
    ensures
        body.error@ == shown_message(status, detail@, expose_detail),
{
    if status.code() >= 500 && !expose_detail {
        ErrorBody { error: String::from_str("internal server error") }
    } else {
        ErrorBody { error: detail }
    }
}

} // verus!
