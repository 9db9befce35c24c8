//! What goes to the service and what comes back, as plain values.
//!
//! This library performs no exchange itself. It says what to send as a
//! [`Request`], and reads what came back from a [`Reply`].

use crate::json::{text_of_json, Json, JsonValue};
use vstd::prelude::*;

verus! {

/// The two HTTP methods that the service is called with.
#[derive(Debug, Clone, Copy, PartialEq, Eq)]
pub enum Verb {
    Get,
    Post,
}

/// One call of the service: where to, and with what.
#[derive(Debug, Clone, PartialEq, Eq)]
pub struct Request {
    pub verb: Verb,
    /// The address, without the query.
    pub url: String,
    /// The query's parameters, each a name and a value, not yet escaped.
    pub query: Vec<(String, String)>,
    /// The body, a JSON document as text, where there is one.
    pub body: Option<String>,
}

/// The mathematical value of a [`Request`].
pub ghost struct RequestModel {
    pub verb: Verb,
    pub url: Seq<char>,
    pub query: Seq<(Seq<char>, Seq<char>)>,
    pub body: Option<Seq<char>>,
}

impl DeepView for Request {
    type V = RequestModel;

    open spec fn deep_view(&self) -> RequestModel {
        RequestModel {
            verb: self.verb,
            url: self.url@,
            query: self.query.deep_view(),
            body: self.body.deep_view(),
        }
    }
}

impl RequestModel {
    /// A GET of `url` with the given parameters.
    pub open spec fn get(url: Seq<char>, query: Seq<(Seq<char>, Seq<char>)>) -> RequestModel {
        RequestModel { verb: Verb::Get, url, query, body: None }
    }

    /// A POST to `url` whose body is the text of `document`.
    pub open spec fn post(url: Seq<char>, document: JsonValue) -> RequestModel {
        RequestModel {
            verb: Verb::Post,
            url,
            query: Seq::empty(),
            body: Some(text_of_json(document)),
        }
    }
}

/// The parameters of a query under construction.
pub struct Query {
    pub list: Vec<(String, String)>,
}

impl DeepView for Query {
    type V = Seq<(Seq<char>, Seq<char>)>;

    open spec fn deep_view(&self) -> Seq<(Seq<char>, Seq<char>)> {
        self.list.deep_view()
    }
}

/// `query` and then, where there is a value, the parameter `name` with that value.
pub open spec fn with_parameter(
    query: Seq<(Seq<char>, Seq<char>)>,
    name: Seq<char>,
    value: Option<Seq<char>>,
) -> Seq<(Seq<char>, Seq<char>)> {
    match value {
        Some(value) => query.push((name, value)),
        None => query,
    }
}

impl Query {
    /// No parameters yet.
    pub fn new() -> (query: Query)
        ensures
            query.deep_view() == Seq::<(Seq<char>, Seq<char>)>::empty(),
    {
        let query = Query { list: Vec::new() };
        assert(query.deep_view() =~= Seq::empty());
        query
    }

    /// Adds a parameter at the end.
    pub fn put(&mut self, name: &str, value: &str)
        ensures
            final(self).deep_view() == old(self).deep_view().push((name@, value@)),
    {
        self.list.push((name.to_owned(), value.to_owned()));
        assert(self.deep_view() =~= old(self).deep_view().push((name@, value@)));
    }

    /// Adds a parameter at the end where there is a value for it.
    pub fn put_optional(&mut self, name: &str, value: Option<&str>)
        ensures
            final(self).deep_view() == with_parameter(
                old(self).deep_view(),
                name@,
                value.deep_view(),
            ),
    {
        match value {
            Some(value) => self.put(name, value),
            None => {},
        }
    }
}

impl Request {
    /// A GET of `url` with the given parameters.
    pub fn get(url: String, query: Query) -> (request: Request)
        ensures
            request.deep_view() == RequestModel::get(url@, query.deep_view()),
    {
        Request { verb: Verb::Get, url, query: query.list, body: None }
    }

    /// A POST to `url` with a body that is already text.
    pub fn post_text(url: String, body: String) -> (request: Request)
        ensures
            request.deep_view() == (RequestModel {
                verb: Verb::Post,
                url: url@,
                query: Seq::empty(),
                body: Some(body@),
            }),
    {
        let request = Request { verb: Verb::Post, url, query: Vec::new(), body: Some(body) };
        assert(request.query.deep_view() =~= Seq::empty());
        request
    }

    /// A POST to `url` whose body is the text of `document`.
    pub fn post(url: String, document: &Json) -> (request: Request)
        ensures
            request.deep_view() == RequestModel::post(url@, document.deep_view()),
    {
        Request::post_text(url, document.to_text())
    }
}

/// What came back for a request.
#[derive(Debug, Clone, PartialEq, Eq)]
pub enum Reply {
    /// The exchange completed, and this is the whole body of the response.
    Body(Vec<u8>),
    /// The exchange did not complete; the text says why.
    Failed(String),
}

/// The mathematical value of a [`Reply`].
pub ghost enum ReplyModel {
    Body(Seq<u8>),
    Failed(Seq<char>),
}

impl DeepView for Reply {
    type V = ReplyModel;

    open spec fn deep_view(&self) -> ReplyModel {
        match self {
            Reply::Body(bytes) => ReplyModel::Body(bytes@),
            Reply::Failed(reason) => ReplyModel::Failed(reason@),
        }
    }
}

} // verus!
