//! The responses a flow can end in.
use vstd::prelude::*;
use vstd::string::StringExecFns;

verus! {

/// The status line of a response.
#[derive(Debug, Clone, Copy, PartialEq, Eq, Structural)]
pub enum Status {
    /// 200
    Success,
    /// 400
    BadRequest,
    /// 401
    Unauthorized,
    /// 409
    Conflict,
    /// 500
    InternalServerError,
}

/// The body of a response.
#[derive(Debug)]
pub enum Body {
    Empty,
    /// Plain text.
    Text(String),
    /// A JSON document, already written out.
    Json(String),
}

/// A response: status, body, and the `Set-Cookie` lines in the order in
/// which they are to be appended.
#[derive(Debug)]
pub struct Response {
    pub status: Status,
    pub body: Body,
    pub set_cookies: Vec<String>,
}

/// Mathematical value of a [`Body`].
pub enum BodyView {
    Empty,
    Text(Seq<char>),
    Json(Seq<char>),
}

/// Mathematical value of a [`Response`].
pub struct ResponseView {
    pub status: Status,
    pub body: BodyView,
    pub set_cookies: Seq<Seq<char>>,
}

impl View for Body {
    type V = BodyView;

    open spec fn view(&self) -> BodyView {
        match self {
            Body::Empty => BodyView::Empty,
            Body::Text(text) => BodyView::Text(text@),
            Body::Json(text) => BodyView::Json(text@),
        }
    }
}

/// The lines that a list of strings stands for.
pub open spec fn lines_of(lines: Seq<String>) -> Seq<Seq<char>> {
    lines.map_values(|line: String| line@)
}

impl View for Response {
    type V = ResponseView;

    open spec fn view(&self) -> ResponseView {
        ResponseView {
            status: self.status,
            body: self.body@,
            set_cookies: lines_of(self.set_cookies@),
        }
    }
}

/// A response of the given status with no body and no cookie.
pub open spec fn bare(status: Status) -> ResponseView {
    ResponseView { status, body: BodyView::Empty, set_cookies: seq![] }
}

/// A response of the given status with a text body and no cookie.
pub open spec fn with_text(status: Status, text: Seq<char>) -> ResponseView {
    ResponseView { status, body: BodyView::Text(text), set_cookies: seq![] }
}

/// A response of the given status with a JSON body and no cookie.
pub open spec fn with_json(status: Status, text: Seq<char>) -> ResponseView {
    ResponseView { status, body: BodyView::Json(text), set_cookies: seq![] }
}

/// A 200 response with no body that sets the given cookies.
pub open spec fn with_cookies(set_cookies: Seq<Seq<char>>) -> ResponseView {
    ResponseView { status: Status::Success, body: BodyView::Empty, set_cookies }
}

impl Response {
    /// A response of the given status with no body and no cookie.
    pub fn bare(status: Status) -> (r: Response)
        ensures
            r@ == bare(status),
    {
        let set_cookies: Vec<String> = Vec::new();
        assert(lines_of(set_cookies@) =~= seq![]);
        Response { status, body: Body::Empty, set_cookies }
    }

    /// A response of the given status with a text body and no cookie.
    pub fn with_text(status: Status, text: &str) -> (r: Response)
        ensures
            r@ == with_text(status, text@),
    {
        let set_cookies: Vec<String> = Vec::new();
        assert(lines_of(set_cookies@) =~= seq![]);
        Response { status, body: Body::Text(String::from_str(text)), set_cookies }
    }

    /// A response of the given status with a JSON body and no cookie.
    pub fn with_json(status: Status, text: &str) -> (r: Response)
        ensures
            r@ == with_json(status, text@),
    {
        let set_cookies: Vec<String> = Vec::new();
        assert(lines_of(set_cookies@) =~= seq![]);
        Response { status, body: Body::Json(String::from_str(text)), set_cookies }
    }

    /// A 200 response with no body that sets two cookies.
    pub fn with_two_cookies(first: String, second: String) -> (r: Response)
        ensures
            r@ == with_cookies(seq![first@, second@]),
    {
        let mut set_cookies: Vec<String> = Vec::new();
        set_cookies.push(first);
        set_cookies.push(second);
        assert(lines_of(set_cookies@) =~= seq![first@, second@]);
        Response { status: Status::Success, body: Body::Empty, set_cookies }
    }

    /// A 200 response with no body that sets three cookies.
    pub fn with_three_cookies(first: String, second: String, third: String) -> (r: Response)
        ensures
            r@ == with_cookies(seq![first@, second@, third@]),
    {
        let mut set_cookies: Vec<String> = Vec::new();
        set_cookies.push(first);
        set_cookies.push(second);
        set_cookies.push(third);
        assert(lines_of(set_cookies@) =~= seq![first@, second@, third@]);
        Response { status: Status::Success, body: Body::Empty, set_cookies }
    }
}

} // verus!
