use vstd::prelude::*;
use reqwest::Client as HttpClient;
use vstd::string::StringExecFns;

use crate::decode::{body_instruments, decode_instruments_body};
use crate::entity::{instruments_view, DecodeError, DecodeErrorView, Instrument, InstrumentView};

verus! {

/// reqwest's HTTP client, which sends the request; carried through opaquely.
#[verifier::external_type_specification]
#[verifier::external_body]
pub struct ExHttpClient(HttpClient);

/// The content type that a request declares.
pub const CONTENT_TYPE_JSON: &'static str = "application/json";

/// The base URL of the broker's API.
pub enum Url {
    Custom(String),
    Live,
    Practice,
}

impl Url {
    /// The base URL as a sequence of characters.
    pub open spec fn spec_text(&self) -> Seq<char> {
        match self {
            Url::Custom(s) => s@,
            Url::Live => "https://api-fxtrade.oanda.com"@,
            Url::Practice => "https://api-fxpractice.oanda.com"@,
        }
    }

    /// The base URL as text.
    pub fn to_string(&self) -> (r: String)
        ensures
            r@ == self.spec_text(),
    {
        match self {
            Url::Custom(s) => s.clone(),
            Url::Live => String::from_str("https://api-fxtrade.oanda.com"),
            Url::Practice => String::from_str("https://api-fxpractice.oanda.com"),
        }
    }
}

/// Why fetching the instruments failed.
#[derive(Debug)]
pub enum Error {
    /// The exchange with the server did not complete; holds the cause.
    Request(String),
    /// The server answered with a status code outside 200 to 299.
    StatusNotOK(u16),
    /// The body of a successful answer did not decode.
    Deserialize(DecodeError),
}

/// An `Error` with its texts as sequences of characters.
pub enum ErrorView {
    Request(Seq<char>),
    StatusNotOK(u16),
    Deserialize(DecodeErrorView),
}

impl View for Error {
    type V = ErrorView;

    open spec fn view(&self) -> ErrorView {
        match self {
            Error::Request(s) => ErrorView::Request(s@),
            Error::StatusNotOK(c) => ErrorView::StatusNotOK(*c),
            Error::Deserialize(e) => ErrorView::Deserialize(e@),
        }
    }
}

/// Whether an HTTP status code reports success.
pub open spec fn is_success(status: u16) -> bool {
    200 <= status <= 299
}

/// What an answer with `status` and `body` yields: the instruments that the
/// body holds where the status is a success, the status as an error where it
/// is not.
pub open spec fn response_instruments(status: u16, body: Seq<char>) -> Result<
    Seq<InstrumentView>,
    ErrorView,
> {
    if is_success(status) {
        match body_instruments(body) {
            Ok(v) => Ok(v),
            Err(e) => Err(ErrorView::Deserialize(e)),
        }
    } else {
        Err(ErrorView::StatusNotOK(status))
    }
}

/// Whether an answer with `status` is a success, whose body is then decoded;
/// the body of any other answer is never read.
pub fn is_success_status(status: u16) -> (r: bool)
    ensures
        r == is_success(status),
{
    200 <= status && status <= 299
}

/// Classifies an answer to the instruments request and decodes its body.
pub fn instruments_from_response(status: u16, body: &str) -> (r: Result<Vec<Instrument>, Error>)
    ensures
        match r {
            Ok(v) => response_instruments(status, body@) == Ok::<
                Seq<InstrumentView>,
                ErrorView,
            >(instruments_view(v@)),
            Err(e) => response_instruments(status, body@) == Err::<Seq<InstrumentView>, ErrorView>(
                e@,
            ),
        },
{
    if !is_success_status(status) {
        return Err(Error::StatusNotOK(status));
    }
    match decode_instruments_body(body) {
        Ok(v) => Ok(v),
        Err(e) => Err(Error::Deserialize(e)),
    }
}

/// A status outside 200 to 299 fails with that status, whatever the body.
pub proof fn lemma_status_error_ignores_body(status: u16, body: Seq<char>)
    requires
        !is_success(status),
    ensures
        response_instruments(status, body) == Err::<Seq<InstrumentView>, ErrorView>(
            ErrorView::StatusNotOK(status),
        ),
{
}

/// A client of the instruments API for one account.
pub struct Client {
    client: HttpClient,
    account_id: String,
    auth_token: String,
    url: Url,
}

impl Client {
    pub closed spec fn spec_account_id(&self) -> Seq<char> {
        self.account_id@
    }

    pub closed spec fn spec_auth_token(&self) -> Seq<char> {
        self.auth_token@
    }

    pub closed spec fn spec_base(&self) -> Seq<char> {
        self.url.spec_text()
    }

    pub fn new(client: HttpClient, account_id: &str, auth_token: &str, url: Url) -> (r: Self)
        ensures
            r.spec_account_id() == account_id@,
            r.spec_auth_token() == auth_token@,
            r.spec_base() == url.spec_text(),
    {
        Client {
            client,
            account_id: String::from_str(account_id),
            auth_token: String::from_str(auth_token),
            url,
        }
    }

    /// The HTTP client that sends the requests.
    pub fn http_client(&self) -> &HttpClient {
        &self.client
    }

    /// The URL of the account's instruments.
    pub fn instruments_url(&self) -> (r: String)
        ensures
            r@ == self.spec_base() + "/v3/accounts/"@ + self.spec_account_id()
                + "/instruments"@,
    {
        let mut r = self.url.to_string();
        r.append("/v3/accounts/");
        r.append(self.account_id.as_str());
        r.append("/instruments");
        r
    }

    /// The value of the `Authorization` header.
    pub fn authorization(&self) -> (r: String)
        ensures
            r@ == "Bearer "@ + self.spec_auth_token(),
    {
        let mut r = String::from_str("Bearer ");
        r.append(self.auth_token.as_str());
        r
    }
}

} // verus!
