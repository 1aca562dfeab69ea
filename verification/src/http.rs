//! A request to the service as plain data: what is to be sent, not the
//! sending of it.

use vstd::prelude::*;

verus! {

/// The method of a request.
#[derive(Clone, Copy, Debug, PartialEq, Eq, Structural)]
pub enum HttpMethod {
    Get,
    Post,
}

/// A named text: a header, or a member of a JSON object whose value is a
/// string.
#[derive(Debug, PartialEq, Eq)]
pub struct Field {
    pub name: String,
    pub value: String,
}

impl View for Field {
    type V = (Seq<char>, Seq<char>);

    open spec fn view(&self) -> (Seq<char>, Seq<char>) {
        (self.name@, self.value@)
    }
}

/// The names and values of `fields`, in order.
pub open spec fn fields_view(fields: Seq<Field>) -> Seq<(Seq<char>, Seq<char>)> {
    Seq::new(fields.len(), |i: int| fields[i]@)
}

/// A request to the service.
#[derive(Debug, PartialEq, Eq)]
pub struct HttpRequest {
    pub method: HttpMethod,
    pub url: String,
    /// The deadline of the whole exchange, in seconds.
    pub timeout_secs: u64,
    pub headers: Vec<Field>,
    /// The members of the JSON object that is the body, if there is a body.
    pub json_body: Option<Vec<Field>>,
}

/// The mathematical content of an [`HttpRequest`].
pub struct HttpRequestView {
    pub method: HttpMethod,
    pub url: Seq<char>,
    pub timeout_secs: nat,
    pub headers: Seq<(Seq<char>, Seq<char>)>,
    pub json_body: Option<Seq<(Seq<char>, Seq<char>)>>,
}

impl View for HttpRequest {
    type V = HttpRequestView;

    open spec fn view(&self) -> HttpRequestView {
        HttpRequestView {
            method: self.method,
            url: self.url@,
            timeout_secs: self.timeout_secs as nat,
            headers: fields_view(self.headers@),
            json_body: match self.json_body {
                Some(fields) => Some(fields_view(fields@)),
                None => None,
            },
        }
    }
}

/// The field `name: value`.
pub fn field(name: &str, value: &str) -> (f: Field)
    ensures
        f@ == (name@, value@),
{
    Field { name: name.to_owned(), value: value.to_owned() }
}

/// The status of a response that tells the client that its credentials were
/// not accepted.
pub const UNAUTHORIZED: u16 = 401;

/// Whether a response with `status` proves the cached login wrong, so that
/// it has to be invalidated.
pub fn rejects_credentials(status: u16) -> (r: bool)
    ensures
        r == (status == UNAUTHORIZED),
{
    status == UNAUTHORIZED
}

} // verus!
