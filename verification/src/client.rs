//! The client: where the playground lives, what to send it, and what to make
//! of its answer.
//!
//! The client does no networking. One half of every operation builds the
//! [`Call`] to make; whoever makes it hands the [`Reply`] to the other half,
//! [`Reply::decode`], which gives the operation's response or the error.

use vstd::prelude::*;
use crate::endpoints::{
    ClippyRequest, CompileRequest, Endpoints, ExecuteRequest, FormatRequest, GistCreateRequest,
    MacroExpansionRequest, MiriRequest,
};
use crate::error::Error;
use crate::json::{object_text, text_fault, text_reads, FromJson, ToJson};
use crate::router::{join_url, parse_url, url_join, url_parse};

verus! {

/// The HTTP method of a call.
#[derive(Debug, Clone, Copy, PartialEq, Eq, Structural)]
pub enum Method {
    Get,
    Post,
}

/// One HTTP request, ready to be made.
#[derive(Debug, Clone, PartialEq, Eq)]
pub struct Call {
    /// GET for the operations that only fetch, POST for those that send a
    /// request record.
    pub method: Method,
    /// The absolute URL to call.
    pub url: String,
    /// The JSON body of a POST, to be sent under [`Call::content_type`]; a
    /// GET has none.
    pub body: Option<String>,
}

impl Call {
    /// The content type that a call with a body declares.
    pub open spec fn json_type() -> Seq<char> {
        "application/json"@
    }

    /// The content type to send the body under: `application/json` for a call
    /// with a body, none for a call without.
    pub fn content_type(&self) -> (r: Option<&'static str>)
        ensures
            match r {
                Some(declared) => self.body is Some && declared@ == Call::json_type(),
                None => self.body is None,
            },
    {
        match &self.body {
            Some(_) => Some("application/json"),
            None => None,
        }
    }

    /// Whether the call goes to `url`, with `body` if there is one, by POST
    /// exactly when there is one.
    pub open spec fn carries(self, url: Seq<char>, body: Option<Seq<char>>) -> bool {
        &&& self.url@ == url
        &&& match body {
            Some(text) => self.method == Method::Post && (self.body matches Some(sent) && sent@
                == text),
            None => self.method == Method::Get && self.body is None,
        }
    }
}

/// What came of making a call.
#[derive(Debug, Clone, PartialEq, Eq)]
pub enum Reply {
    /// No answer arrived: the connection, TLS, DNS or a timeout failed.
    /// Carries the cause as the transport described it.
    Failed(String),
    /// An answer arrived, with this status code and this body.
    Answered(u16, String),
}

/// Whether a status code lies in the range of success, 200 to 299.
pub open spec fn succeeded(status: u16) -> bool {
    200 <= status <= 299
}

/// Whether a status code lies in the range of success, 200 to 299.
pub fn is_success(status: u16) -> (r: bool)
    ensures
        r == succeeded(status),
{
    200 <= status && status <= 299
}

impl Reply {
    /// Whether `r` is what this reply comes to for a response of type `T`:
    /// a failed exchange is a transport error with the same cause; a status
    /// outside 200 to 299 is that status, whatever the body holds; a body
    /// that cannot be read is a decode error that names the field at fault
    /// and carries the body; and any other body is the response it says.
    pub open spec fn comes_to<T: FromJson>(self, r: Result<T, Error>) -> bool {
        match self {
            Reply::Failed(cause) => r matches Err(Error::Transport(told)) && told@ == cause@,
            Reply::Answered(status, body) => if !succeeded(status) {
                r matches Err(Error::NoSuccess(code)) && code == status
            } else {
                match text_fault::<T>(body@) {
                    Some(field) => r matches Err(Error::Decode(e)) && e.tells(field, body@),
                    None => r matches Ok(response) && text_reads(response, body@),
                }
            },
        }
    }

    /// Turns the reply into the response of the operation, or into the error.
    /// The body is looked at only under a status of success.
    pub fn decode<T: FromJson>(self) -> (r: Result<T, Error>)
        ensures
            self.comes_to(r),
    {
        match self {
            Reply::Failed(cause) => Err(Error::Transport(cause)),
            Reply::Answered(status, body) => {
                if !is_success(status) {
                    Err(Error::NoSuccess(status))
                } else {
                    match T::from_json(body.as_str()) {
                        Ok(response) => Ok(response),
                        Err(e) => Err(Error::Decode(e)),
                    }
                }
            },
        }
    }
}

/// A status outside 200 to 299 decides alone: whatever the body holds, the
/// reply comes to the error that carries the status, and to nothing else.
pub proof fn failure_status_decides<T: FromJson>(status: u16, body: String, r: Result<T, Error>)
    requires
        !succeeded(status),
    ensures
        Reply::Answered(status, body).comes_to(r) <==> (r matches Err(Error::NoSuccess(code))
            && code == status),
{
}

/// Under a status of 200 to 299, a body that fails to supply a field of the
/// response comes to a decode error, and to nothing else; the error names the
/// first such field and carries the body.
pub proof fn unreadable_body_is_a_decode_error<T: FromJson>(
    status: u16,
    body: String,
    r: Result<T, Error>,
)
    requires
        succeeded(status),
        text_fault::<T>(body@) is Some,
    ensures
        Reply::Answered(status, body).comes_to(r) <==> (r matches Err(Error::Decode(e))
            && e.tells(text_fault::<T>(body@)->0, body@)),
{
}

/// A client for one playground, known by its base URL.
#[derive(Debug, Clone, PartialEq, Eq)]
pub struct Client {
    url: String,
}

impl View for Client {
    type V = Seq<char>;

    /// The serialization of the base URL.
    closed spec fn view(&self) -> Seq<char> {
        self.url@
    }
}

impl Default for Client {
    /// A client for the public playground, `https://play.rust-lang.org/`.
    fn default() -> (r: Client)
        ensures
            r@ == "https://play.rust-lang.org/"@,
    {
        Client { url: "https://play.rust-lang.org/".to_owned() }
    }
}

impl Client {
    /// Whether `r` is the call that this client makes to `endpoint` with
    /// `body`: the endpoint's path joined to the base URL, or the error of
    /// the join.
    pub open spec fn plans(
        self,
        endpoint: Endpoints,
        body: Option<Seq<char>>,
        r: Result<Call, Error>,
    ) -> bool {
        match url_join(self@, endpoint.route()) {
            Ok(url) => r matches Ok(call) && call.carries(url, body),
            Err(e) => r matches Err(Error::Url(cause)) && cause == e,
        }
    }

    /// A client for the playground at `url`, which has to parse as an
    /// absolute URL; the client keeps the URL's serialization. Nothing is
    /// sent anywhere.
    pub fn new(url: &str) -> (r: Result<Client, Error>)
        ensures
            match url_parse(url@) {
                Ok(base) => r matches Ok(client) && client@ == base,
                Err(e) => r matches Err(Error::Url(cause)) && cause == e,
            },
    {
        match parse_url(url) {
            Ok(base) => Ok(Client { url: base }),
            Err(e) => Err(Error::Url(e)),
        }
    }

    /// The serialization of the base URL.
    pub fn as_str(&self) -> (r: &str)
        ensures
            r@ == self@,
    {
        self.url.as_str()
    }

    /// The URL of `endpoint` at this playground: the endpoint's path joined
    /// to the base URL as a relative reference. Under a base that ends in a
    /// slash the path is appended; under any other base it takes the place of
    /// the base's last path segment. The id of a gist comes escaped in the
    /// path, so it stays the last segment; only the ids `.` and `..`, which
    /// no URL can hold as a segment, are resolved away by the join.
    pub fn get_url(&self, endpoint: &Endpoints) -> (r: Result<String, Error>)
        ensures
            match url_join(self@, endpoint.route()) {
                Ok(joined) => r matches Ok(url) && url@ == joined,
                Err(e) => r matches Err(Error::Url(cause)) && cause == e,
            },
    {
        let path = endpoint.path();
        match join_url(self.url.as_str(), path.as_str()) {
            Ok(url) => Ok(url),
            Err(e) => Err(Error::Url(e)),
        }
    }

    /// The POST that sends `request` to `endpoint` as JSON.
    pub fn post<T: ToJson>(&self, request: &T, endpoint: Endpoints) -> (r: Result<Call, Error>)
        ensures
            self.plans(endpoint, Some(object_text(request.fields())), r),
    {
        let url = match self.get_url(&endpoint) {
            Ok(url) => url,
            Err(e) => {
                return Err(e);
            },
        };
        Ok(Call { method: Method::Post, url, body: Some(request.to_json()) })
    }

    /// The GET that fetches from `endpoint`.
    pub fn get(&self, endpoint: Endpoints) -> (r: Result<Call, Error>)
        ensures
            self.plans(endpoint, None, r),
    {
        let url = match self.get_url(&endpoint) {
            Ok(url) => url,
            Err(e) => {
                return Err(e);
            },
        };
        Ok(Call { method: Method::Get, url, body: None })
    }

    /// The call that runs the code of `request`. Its reply decodes to an
    /// `ExecuteResponse`.
    pub fn execute(&self, request: &ExecuteRequest) -> (r: Result<Call, Error>)
        ensures
            self.plans(Endpoints::Execute, Some(object_text(request.fields())), r),
    {
        self.post(request, Endpoints::Execute)
    }

    /// The call that compiles the code of `request`. Its reply decodes to a
    /// `CompileResponse`.
    pub fn compile(&self, request: &CompileRequest) -> (r: Result<Call, Error>)
        ensures
            self.plans(Endpoints::Compile, Some(object_text(request.fields())), r),
    {
        self.post(request, Endpoints::Compile)
    }

    /// The call that formats the code of `request`. Its reply decodes to a
    /// `FormatResponse`.
    pub fn format(&self, request: &FormatRequest) -> (r: Result<Call, Error>)
        ensures
            self.plans(Endpoints::Format, Some(object_text(request.fields())), r),
    {
        self.post(request, Endpoints::Format)
    }

    /// The call that lints the code of `request`. Its reply decodes to a
    /// `ClippyResponse`.
    pub fn clippy(&self, request: &ClippyRequest) -> (r: Result<Call, Error>)
        ensures
            self.plans(Endpoints::Clippy, Some(object_text(request.fields())), r),
    {
        self.post(request, Endpoints::Clippy)
    }

    /// The call that interprets the code of `request` under Miri. Its reply
    /// decodes to a `MiriResponse`.
    pub fn miri(&self, request: &MiriRequest) -> (r: Result<Call, Error>)
        ensures
            self.plans(Endpoints::Miri, Some(object_text(request.fields())), r),
    {
        self.post(request, Endpoints::Miri)
    }

    /// The call that expands the macros in the code of `request`. Its reply
    /// decodes to a `MacroExpansionResponse`.
    pub fn macro_expansion(&self, request: &MacroExpansionRequest) -> (r: Result<Call, Error>)
        ensures
            self.plans(Endpoints::MacroExpansion, Some(object_text(request.fields())), r),
    {
        self.post(request, Endpoints::MacroExpansion)
    }

    /// The call that lists the crates on offer. Its reply decodes to a
    /// `CratesResponse`.
    pub fn crates(&self) -> (r: Result<Call, Error>)
        ensures
            self.plans(Endpoints::Crates, None, r),
    {
        self.get(Endpoints::Crates)
    }

    /// The call that lists the toolchain versions. Its reply decodes to a
    /// `VersionsResponse`.
    pub fn versions(&self) -> (r: Result<Call, Error>)
        ensures
            self.plans(Endpoints::Versions, None, r),
    {
        self.get(Endpoints::Versions)
    }

    /// The call that stores the code of `request` as a gist. Its reply
    /// decodes to a `GistResponse`.
    pub fn gist_create(&self, request: &GistCreateRequest) -> (r: Result<Call, Error>)
        ensures
            self.plans(Endpoints::GistCreate, Some(object_text(request.fields())), r),
    {
        self.post(request, Endpoints::GistCreate)
    }

    /// The call that fetches the gist with the given id. Its reply decodes to
    /// a `GistResponse`.
    pub fn gist_get(&self, id: String) -> (r: Result<Call, Error>)
        ensures
            self.plans(Endpoints::GistGet(id), None, r),
    {
        self.get(Endpoints::GistGet(id))
    }
}

/// The POST that sends `request` as JSON to `endpoint` of the playground at
/// `domain`, which has to parse as an absolute URL.
pub fn post<T: ToJson>(domain: &str, request: &T, endpoint: Endpoints) -> (r: Result<Call, Error>)
    ensures
        match url_parse(domain@) {
            Ok(base) => match url_join(base, endpoint.route()) {
                Ok(url) => r matches Ok(call) && call.carries(url, Some(object_text(request.fields()))),
                Err(e) => r matches Err(Error::Url(cause)) && cause == e,
            },
            Err(e) => r matches Err(Error::Url(cause)) && cause == e,
        },
{
    match Client::new(domain) {
        Ok(client) => client.post(request, endpoint),
        Err(e) => Err(e),
    }
}

} // verus!
