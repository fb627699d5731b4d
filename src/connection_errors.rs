use vstd::prelude::*;
use vstd::string::*;

verus! {

/// An error met while answering a request; `details` says what went wrong.
#[derive(Debug)]
pub struct ResponseError {
    details: String,
}

impl ResponseError {
    pub closed spec fn details_view(&self) -> Seq<char> {
        self.details@
    }

    pub fn new(details: String) -> (r: Self)
        ensures
            r.details_view() == details@,
    {
        Self { details }
    }

    pub fn details(&self) -> (r: &str)
        ensures
            r@ == self.details_view(),
    {
        self.details.as_str()
    }
}

impl From<String> for ResponseError {
    fn from(err: String) -> (r: Self) {
        Self { details: err }
    }
}

impl vstd::std_specs::convert::FromSpecImpl<String> for ResponseError {
    open spec fn obeys_from_spec() -> bool {
        true
    }

    closed spec fn from_spec(v: String) -> Self {
        ResponseError { details: v }
    }
}

/// The text an empty request is reported with.
pub open spec fn empty_request_message() -> Seq<char> {
    seq!['T', 'h', 'e', ' ', 'r', 'e', 'q', 'u', 'e', 's', 't', ' ', 's', 'e', 'n', 't', ' ',
        'b', 'y', ' ', 't', 'h', 'e', ' ', 'p', 'a', 'g', 'e', ' ', 'w', 'a', 's', ' ',
        'e', 'm', 'p', 't', 'y']
}

/// How an empty request error reads once folded into a response error.
pub open spec fn empty_request_record(details: Seq<char>) -> Seq<char> {
    seq!['E', 'm', 'p', 't', 'y', 'R', 'e', 'q', 'u', 'e', 's', 't', 'E', 'r', 'r', 'o', 'r',
        ' ', '{', ' ', 'd', 'e', 't', 'a', 'i', 'l', 's', ':', ' ', '"'] + details + seq![
        '"', ' ', '}']
}

/// The request carried no line at all.
#[derive(Debug)]
pub struct EmptyRequestError {
    details: String,
}

impl EmptyRequestError {
    pub closed spec fn details_view(&self) -> Seq<char> {
        self.details@
    }

    pub fn new() -> (r: Self)
        ensures
            r.details_view() == empty_request_message(),
    {
        let text = "The request sent by the page was empty";
        proof {
            reveal_strlit("The request sent by the page was empty");
        }
        assert(text@ =~= empty_request_message());
        Self { details: String::from_str(text) }
    }

    pub fn details(&self) -> (r: &str)
        ensures
            r@ == self.details_view(),
    {
        self.details.as_str()
    }
}

impl ResponseError {
    /// Folds an empty request error into a response error, keeping its record.
    pub fn from_empty_request(err: EmptyRequestError) -> (r: Self)
        ensures
            r.details_view() == empty_request_record(err.details_view()),
    {
        let head = "EmptyRequestError { details: \"";
        let tail = "\" }";
        proof {
            reveal_strlit("EmptyRequestError { details: \"");
            reveal_strlit("\" }");
        }
        let details = String::from_str(head).concat(err.details.as_str()).concat(tail);
        assert(details@ =~= empty_request_record(err.details@));
        Self::new(details)
    }
}

} // verus!
