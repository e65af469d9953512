use crate::types::ApiResponse;
use vstd::prelude::*;
use vstd::string::*;

verus! {

/// Query parameters as text: each pair by the characters of its key and of
/// its value, in order.
pub open spec fn pairs_text(pairs: Seq<(String, String)>) -> Seq<(Seq<char>, Seq<char>)> {
    pairs.map_values(|pair: (String, String)| (pair.0@, pair.1@))
}

/// Whether an HTTP status counts as success: the range 200 to 299.
pub open spec fn is_success(status: u16) -> bool {
    200 <= status <= 299
}

/// One HTTP GET for the caller to perform: the address, the query parameters
/// to attach to it, and the bearer token for its `Authorization` header.
#[derive(Debug, Clone, PartialEq, Eq)]
pub struct Fetch {
    pub url: String,
    pub params: Vec<(String, String)>,
    pub credential: String,
}

/// A [`Fetch`] as text.
pub struct FetchView {
    pub url: Seq<char>,
    pub params: Seq<(Seq<char>, Seq<char>)>,
    pub credential: Seq<char>,
}

impl View for Fetch {
    type V = FetchView;

    open spec fn view(&self) -> FetchView {
        FetchView {
            url: self.url@,
            params: pairs_text(self.params@),
            credential: self.credential@,
        }
    }
}

impl Fetch {
    /// The value of the `Authorization` header: the word `Bearer`, a space,
    /// and the credential.
    pub fn authorization(&self) -> (header: String)
        ensures
            header@ == "Bearer "@ + self.credential@,
    {
        let mut header = String::from_str("Bearer ");
        header.append(self.credential.as_str());
        header
    }
}

/// What performing a [`Fetch`] brought back.
#[derive(Debug, Clone, PartialEq, Eq)]
pub enum Reply {
    /// No HTTP response arrived (name resolution, connection, timeout).
    Unreachable { cause: String },
    /// An HTTP response arrived, with this status and this body.
    Answered { status: u16, body: String },
}

/// A [`Reply`] as text.
pub enum ReplyView {
    Unreachable { cause: Seq<char> },
    Answered { status: u16, body: Seq<char> },
}

impl View for Reply {
    type V = ReplyView;

    open spec fn view(&self) -> ReplyView {
        match *self {
            Reply::Unreachable { cause } => ReplyView::Unreachable { cause: cause@ },
            Reply::Answered { status, body } => ReplyView::Answered { status, body: body@ },
        }
    }
}

/// Why an exchange failed.
#[derive(Debug, Clone, PartialEq, Eq)]
pub enum SendError {
    /// The service could not be reached; `cause` is what the transport said.
    TransportError { cause: String },
    /// The body of a successful response was not an envelope of the expected
    /// shape; `body` is the body as received, `reason` what the decoder said.
    DecodeError { body: String, reason: String },
    /// The service answered with a status outside 200 to 299; `body` is the
    /// body as received.
    ApiError { status: u16, body: String },
}

/// A [`SendError`] as text.
pub enum ErrorView {
    TransportError { cause: Seq<char> },
    DecodeError { body: Seq<char>, reason: Seq<char> },
    ApiError { status: u16, body: Seq<char> },
}

impl View for SendError {
    type V = ErrorView;

    open spec fn view(&self) -> ErrorView {
        match *self {
            SendError::TransportError { cause } => ErrorView::TransportError { cause: cause@ },
            SendError::DecodeError { body, reason } => ErrorView::DecodeError {
                body: body@,
                reason: reason@,
            },
            SendError::ApiError { status, body } => ErrorView::ApiError { status, body: body@ },
        }
    }
}

/// What a reply means before its body is looked at: the body to decode,
/// where the service answered with success, and the failure otherwise.
pub open spec fn receive(reply: ReplyView) -> Result<Seq<char>, ErrorView> {
    match reply {
        ReplyView::Unreachable { cause } => Err(ErrorView::TransportError { cause }),
        ReplyView::Answered { status, body } => {
            if is_success(status) {
                Ok(body)
            } else {
                Err(ErrorView::ApiError { status, body })
            }
        },
    }
}

/// What the decoder's verdict on `body` means: the decoded value, or a
/// decode failure that carries the body and the decoder's reason.
pub open spec fn accept<D>(body: Seq<char>, decoded: Result<D, Seq<char>>) -> Result<
    D,
    ErrorView,
> {
    match decoded {
        Ok(value) => Ok(value),
        Err(reason) => Err(ErrorView::DecodeError { body, reason }),
    }
}

/// The result of one fetch: what `reply` means, given what the decoder says
/// of its body. The decoder's verdict counts only where the service answered
/// with success.
pub open spec fn outcome<D>(reply: ReplyView, decoded: Result<D, Seq<char>>) -> Result<
    D,
    ErrorView,
> {
    match receive(reply) {
        Ok(body) => accept(body, decoded),
        Err(error) => Err(error),
    }
}

/// A decoded page of a collection: its items in the order the service sent
/// them, and the address of the page after it, if there is one.
pub struct Page<T> {
    pub items: Seq<T>,
    pub next: Option<Seq<char>>,
}

/// The page that an envelope around a list holds.
pub open spec fn page_of<T>(envelope: ApiResponse<Vec<T>>) -> Page<T> {
    Page { items: envelope.data@, next: envelope.next() }
}

/// The decoder's verdict on the body of a page, as a value of the model.
pub open spec fn decoded_page<T>(decoded: Result<ApiResponse<Vec<T>>, String>) -> Result<
    Page<T>,
    Seq<char>,
> {
    match decoded {
        Ok(envelope) => Ok(page_of(envelope)),
        Err(reason) => Err(reason@),
    }
}

/// The decoder's verdict on the body of a single resource, as a value of the
/// model: the payload alone, whatever links the envelope has.
pub open spec fn decoded_resource<T>(decoded: Result<ApiResponse<T>, String>) -> Result<
    T,
    Seq<char>,
> {
    match decoded {
        Ok(envelope) => Ok(envelope.data),
        Err(reason) => Err(reason@),
    }
}

/// The state of a collection fetch between two pages: the credential to
/// attach to every request, and the items collected so far.
pub struct Walk<T> {
    pub credential: Seq<char>,
    pub items: Seq<T>,
}

/// What a collection fetch does once a page has been fetched.
pub enum Step<T> {
    /// Fetch a further page and go on from this state.
    Next(Walk<T>, FetchView),
    /// Deliver the collected items.
    Complete(Seq<T>),
    /// Fail with this error; nothing that was collected is delivered.
    Failed(ErrorView),
}

/// The rule of pagination.
///
/// A page that failed ends the fetch with its error. Otherwise the items of
/// the page are appended to those collected so far. If the page names a next
/// page, that address is fetched as it stands, without query parameters and
/// with the same credential; if not, the items are delivered.
pub open spec fn advance<T>(walk: Walk<T>, page: Result<Page<T>, ErrorView>) -> Step<T> {
    match page {
        Err(error) => Step::Failed(error),
        Ok(page) => match page.next {
            Some(url) => Step::Next(
                Walk { credential: walk.credential, items: walk.items + page.items },
                FetchView {
                    url,
                    params: Seq::<(Seq<char>, Seq<char>)>::empty(),
                    credential: walk.credential,
                },
            ),
            None => Step::Complete(walk.items + page.items),
        },
    }
}

/// The request that opens an exchange: the address, the parameters and the
/// credential of the request, as they are.
pub open spec fn opening<K: ApiRequest>(request: K) -> FetchView {
    FetchView { url: request.url(), params: request.params(), credential: request.credential() }
}

/// What every request of an endpoint offers: the address to GET, the query
/// parameters of the first request, and the bearer token.
pub trait ApiRequest: Sized {
    /// What the request asks for: one resource, or a list of them.
    type T;

    /// The address of the endpoint, without query parameters.
    spec fn url(&self) -> Seq<char>;

    /// The query parameters, in the order in which they were added.
    spec fn params(&self) -> Seq<(Seq<char>, Seq<char>)>;

    /// The bearer token.
    spec fn credential(&self) -> Seq<char>;

    fn get_url(&self) -> (url: &String)
        ensures
            url@ == self.url(),
    ;

    fn get_params(&self) -> (params: &Vec<(String, String)>)
        ensures
            pairs_text(params@) == self.params(),
    ;

    fn get_api_key(&self) -> (api_key: &String)
        ensures
            api_key@ == self.credential(),
    ;
}

/// A copy of a list of query parameters.
fn copy_params(params: &Vec<(String, String)>) -> (copy: Vec<(String, String)>)
    ensures
        pairs_text(copy@) == pairs_text(params@),
{
    let mut copy: Vec<(String, String)> = Vec::new();
    let mut i: usize = 0;
    while i < params.len()
        invariant
            i <= params.len(),
            copy.len() == i,
            forall|j: int| 0 <= j < i ==> copy[j].0@ == params[j].0@ && copy[j].1@ == params[j].1@,
        decreases params.len() - i,
    {
        let key = params[i].0.clone();
        let value = params[i].1.clone();
        copy.push((key, value));
        i = i + 1;
    }
    assert(pairs_text(copy@) =~= pairs_text(params@));
    copy
}

/// The first request of an exchange.
fn open_fetch<K: ApiRequest>(base: &K) -> (fetch: Fetch)
    ensures
        fetch@ == opening(*base),
{
    Fetch {
        url: base.get_url().clone(),
        params: copy_params(base.get_params()),
        credential: base.get_api_key().clone(),
    }
}

/// A collection fetch that has issued a request and waits for its reply.
pub struct PageWalk<T> {
    api_key: String,
    items: Vec<T>,
}

impl<T> View for PageWalk<T> {
    type V = Walk<T>;

    closed spec fn view(&self) -> Walk<T> {
        Walk { credential: self.api_key@, items: self.items@ }
    }
}

/// A collection fetch that has received the body of a page and waits for it
/// to be decoded.
pub struct PageBody<T> {
    walk: PageWalk<T>,
    body: String,
}

impl<T> PageBody<T> {
    /// The state of the fetch that the page belongs to.
    pub closed spec fn walk(&self) -> Walk<T> {
        self.walk@
    }

    /// The body as text.
    pub closed spec fn text(&self) -> Seq<char> {
        self.body@
    }

    /// The body to decode, as an envelope around a list of resources.
    pub fn body(&self) -> (body: &String)
        ensures
            body@ == self.text(),
    {
        &self.body
    }
}

/// What a collection fetch asks for once a page has been decoded.
pub enum Progress<T> {
    /// Perform this fetch, and hand its reply to this state.
    Next(PageWalk<T>, Fetch),
    /// The collection is complete: these are its items.
    Complete(Vec<T>),
}

/// The result of decoding a page, as a step of the model.
pub open spec fn step_of<T>(result: Result<Progress<T>, SendError>) -> Step<T> {
    match result {
        Ok(Progress::Next(walk, fetch)) => Step::Next(walk@, fetch@),
        Ok(Progress::Complete(items)) => Step::Complete(items@),
        Err(error) => Step::Failed(error@),
    }
}

impl<T> PageWalk<T> {
    /// Takes the reply to the request that is under way.
    ///
    /// Where the service answered with success, the fetch goes on to decode
    /// the body. Otherwise it ends here with the failure, and what was
    /// collected from earlier pages is dropped with it.
    pub fn on_reply(self, reply: Reply) -> (replied: Result<PageBody<T>, SendError>)
        ensures
            match receive(reply@) {
                Ok(body) => replied matches Ok(page) && page.walk() == self@ && page.text()
                    == body,
                Err(error) => replied matches Err(failure) && failure@ == error,
            },
    {
        match reply {
            Reply::Unreachable { cause } => Err(SendError::TransportError { cause }),
            Reply::Answered { status, body } => {
                if 200 <= status && status <= 299 {
                    Ok(PageBody { walk: self, body })
                } else {
                    Err(SendError::ApiError { status, body })
                }
            },
        }
    }
}

impl<T> PageBody<T> {
    /// Takes the decoder's verdict on the body: the envelope, or the reason
    /// why the body is none.
    ///
    /// The result is the step that the rule of pagination prescribes.
    pub fn on_decoded(self, decoded: Result<ApiResponse<Vec<T>>, String>) -> (progress: Result<
        Progress<T>,
        SendError,
    >)
        ensures
            step_of(progress) == advance(self.walk(), accept(self.text(), decoded_page(decoded))),
    {
        match decoded {
            Err(reason) => Err(SendError::DecodeError { body: self.body, reason }),
            Ok(envelope) => {
                let next = envelope.next_url();
                let mut page = envelope.data;
                let mut walk = self.walk;
                walk.items.append(&mut page);
                match next {
                    Some(url) => {
                        let credential = walk.api_key.clone();
                        let fetch = Fetch { url, params: Vec::new(), credential };
                        assert(fetch@.params =~= Seq::<(Seq<char>, Seq<char>)>::empty());
                        Ok(Progress::Next(walk, fetch))
                    },
                    None => Ok(Progress::Complete(walk.items)),
                }
            },
        }
    }
}

/// A single-resource fetch that has issued its request and waits for the
/// reply.
pub struct ResourceFetch {}

/// A single-resource fetch that has received a body and waits for it to be
/// decoded.
pub struct ResourceBody {
    body: String,
}

impl ResourceFetch {
    /// Takes the reply to the request.
    ///
    /// Where the service answered with success, the fetch goes on to decode
    /// the body; otherwise it ends here with the failure.
    pub fn on_reply(self, reply: Reply) -> (replied: Result<ResourceBody, SendError>)
        ensures
            match receive(reply@) {
                Ok(body) => replied matches Ok(resource) && resource.text() == body,
                Err(error) => replied matches Err(failure) && failure@ == error,
            },
    {
        match reply {
            Reply::Unreachable { cause } => Err(SendError::TransportError { cause }),
            Reply::Answered { status, body } => {
                if 200 <= status && status <= 299 {
                    Ok(ResourceBody { body })
                } else {
                    Err(SendError::ApiError { status, body })
                }
            },
        }
    }
}

/// The result of a single-resource fetch, as a value of the model.
pub open spec fn delivered<T>(result: Result<T, SendError>) -> Result<T, ErrorView> {
    match result {
        Ok(resource) => Ok(resource),
        Err(error) => Err(error@),
    }
}

impl ResourceBody {
    /// The body as text.
    pub closed spec fn text(&self) -> Seq<char> {
        self.body@
    }

    /// The body to decode, as an envelope around one resource.
    pub fn body(&self) -> (body: &String)
        ensures
            body@ == self.text(),
    {
        &self.body
    }

    /// Takes the decoder's verdict on the body and ends the fetch: with the
    /// payload of the envelope, whatever its links say, or with the decode
    /// failure.
    pub fn on_decoded<T>(self, decoded: Result<ApiResponse<T>, String>) -> (resource: Result<
        T,
        SendError,
    >)
        ensures
            delivered(resource) == accept(self.text(), decoded_resource(decoded)),
    {
        match decoded {
            Err(reason) => Err(SendError::DecodeError { body: self.body, reason }),
            Ok(envelope) => Ok(envelope.data),
        }
    }
}

/// The engine that executes requests.
pub struct RequestSender {}

impl RequestSender {
    /// Opens the fetch of a collection: the first request carries the
    /// address, the parameters and the credential of `base`, and nothing has
    /// been collected yet.
    pub fn send_paginate<T, K: ApiRequest>(base: K) -> (started: (PageWalk<T>, Fetch))
        ensures
            started.0@ == (Walk { credential: base.credential(), items: Seq::<T>::empty() }),
            started.1@ == opening(base),
    {
        let fetch = open_fetch(&base);
        let api_key = base.get_api_key().clone();
        (PageWalk { api_key, items: Vec::new() }, fetch)
    }

    /// Opens the fetch of a single resource: its one request carries the
    /// address, the parameters and the credential of `base`.
    pub fn send<K: ApiRequest>(base: K) -> (started: (ResourceFetch, Fetch))
        ensures
            started.1@ == opening(base),
    {
        let fetch = open_fetch(&base);
        (ResourceFetch {  }, fetch)
    }
}

} // verus!
