use vstd::prelude::*;

verus! {

/// The HTTP statuses that the site answers with.
#[derive(PartialEq, Eq, Structural, Clone, Copy, Debug)]
pub enum Status {
    Success,
    NoContent,
    MovedPermanently,
    Found,
    BadRequest,
    NotFound,
    InternalServerError,
}

impl Status {
    /// The numeric status code.
    pub open spec fn spec_code(self) -> u16 {
        match self {
            Status::Success => 200,
            Status::NoContent => 204,
            Status::MovedPermanently => 301,
            Status::Found => 302,
            Status::BadRequest => 400,
            Status::NotFound => 404,
            Status::InternalServerError => 500,
        }
    }

    /// The numeric status code.
    pub fn code(&self) -> (r: u16)
        ensures
            r == self.spec_code(),
    {
        match self {
            Status::Success => 200,
            Status::NoContent => 204,
            Status::MovedPermanently => 301,
            Status::Found => 302,
            Status::BadRequest => 400,
            Status::NotFound => 404,
            Status::InternalServerError => 500,
        }
    }
}

} // verus!

verus! {

/// A redirection: the status to answer with and where to send the client.
#[derive(Clone, Debug)]
pub struct Redirect {
    pub status: Status,
    pub location: String,
}

impl Redirect {
    /// A temporary redirection (302) to `location`.
    pub fn found(location: &str) -> (r: Redirect)
        ensures
            r.status == Status::Found,
            r.location@ == location@,
    {
        Redirect { status: Status::Found, location: String::from_str(location) }
    }

    /// A permanent redirection (301) to `location`.
    pub fn moved_permanently(location: String) -> (r: Redirect)
        ensures
            r.status == Status::MovedPermanently,
            r.location@ == location@,
    {
        Redirect { status: Status::MovedPermanently, location }
    }
}

} // verus!
