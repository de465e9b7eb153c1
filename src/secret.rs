use vstd::prelude::*;

verus! {

/// The value served to every caller. It is resolved once and never changes
/// afterwards, so it can be shared read-only by every request handler.
pub struct Secret {
    value: String,
}

/// What the responder sends back for a request.
#[derive(Clone, Debug, PartialEq, Eq)]
pub struct Response {
    pub status: u16,
    pub body: String,
}

/// The status code of an ordinary successful response.
pub const STATUS_OK: u16 = 200;

impl View for Secret {
    type V = Seq<char>;

    closed spec fn view(&self) -> Seq<char> {
        self.value@
    }
}

impl Secret {
    /// Wraps a resolved value; its characters are kept exactly as given.
    pub fn new(value: String) -> (r: Secret)
        ensures
            r@ == value@,
    {
        Secret { value }
    }

    /// The secret's characters.
    pub fn as_str(&self) -> (r: &str)
        ensures
            r@ == self@,
    {
        self.value.as_str()
    }

    /// The answer to any request, whatever its method, path, headers or body:
    /// a success status and the secret as the body, with nothing added or
    /// removed.
    pub fn respond(&self) -> (r: Response)
        ensures
            r.status == STATUS_OK,
            r.body@ == self@,
    {
        Response { status: STATUS_OK, body: self.value.clone() }
    }
}

} // verus!
