//! The remote procedure client: how a call is framed and how its answer is
//! unwrapped.
//!
//! A call is a read (`query`) or a write (`mutation`) of a named procedure.
//! The client builds the request; the caller sends it, decodes the body it
//! gets back and hands the outcome of the decoding to `decode_response`.

use vstd::prelude::*;
use vstd::string::StringExecFns;
use crate::error::DeployError;

verus! {

/// The envelope of a successful answer.
#[derive(Debug)]
pub struct TrpcResponse<T> {
    pub result: TrpcResult<T>,
}

/// The inner part of a successful answer.
#[derive(Debug)]
pub struct TrpcResult<T> {
    pub data: T,
}

/// What went wrong at the remote, in its words.
pub struct TrpcError {
    pub message: String,
}

/// The envelope of a failed answer.
pub struct TrpcErrorResult {
    pub error: TrpcError,
}

/// Where the control plane lives and who is asking.
pub struct Config {
    /// The base address of the control plane.
    pub site_url: String,
    /// The authentication token, once the user has logged in.
    pub token: Option<String>,
}

/// The verb of a request.
#[derive(Clone, Copy, Debug, PartialEq, Eq, Structural)]
pub enum Method {
    Get,
    Post,
}

/// One header of a request.
pub struct Header {
    pub name: String,
    pub value: String,
}

/// A request to the control plane, ready to be sent.
pub struct TrpcRequest {
    pub method: Method,
    pub uri: String,
    pub headers: Vec<Header>,
    /// The body, where the request has one.
    pub body: Option<String>,
}

/// What `urlencoding::encode` returns for a text: its UTF-8 bytes with every
/// byte percent-encoded but letters, digits, `-`, `_`, `.` and `~`.
pub uninterp spec fn percent_encoded(text: Seq<char>) -> Seq<char>;

/// Calls `urlencoding::encode`. The contract only gives the result its name.
#[verifier::external_body]
fn encode(text: &str) -> (encoded: String)
    ensures
        encoded@ == percent_encoded(text@),
{
    urlencoding::encode(text).into_owned()
}

/// The address of a procedure: the base address, the path of the interface
/// and the procedure's name.
pub open spec fn endpoint(site_url: Seq<char>, key: Seq<char>) -> Seq<char> {
    site_url + "/api/trpc/"@ + key
}

/// The address that a read is sent to: the procedure's address, followed by
/// the percent-encoded input as a query parameter where there is input.
pub open spec fn query_uri(site_url: Seq<char>, key: Seq<char>, input: Option<Seq<char>>) -> Seq<
    char,
> {
    match input {
        Some(json) => endpoint(site_url, key) + "?input="@ + percent_encoded(json),
        None => endpoint(site_url, key),
    }
}

/// Whether `headers` are those of every call: the content type of JSON and
/// the authentication token.
pub open spec fn call_headers(headers: Seq<Header>, token: Seq<char>) -> bool {
    &&& headers.len() == 2
    &&& headers[0].name@ == "content-type"@
    &&& headers[0].value@ == "application/json"@
    &&& headers[1].name@ == "x-lagon-token"@
    &&& headers[1].value@ == token
}

/// Whether a configuration holds a token to call with: one that is there
/// and not empty.
pub open spec fn has_token(config: Config) -> bool {
    config.token matches Some(token) && token@.len() > 0
}

/// The client of the control plane's procedures.
pub struct TrpcClient<'a> {
    config: &'a Config,
}

impl<'a> TrpcClient<'a> {
    /// The configuration that the client calls with.
    pub closed spec fn config(&self) -> Config {
        *self.config
    }

    /// A client that calls with `config`.
    pub fn new(config: &'a Config) -> (client: Self)
        ensures
            client.config() == *config,
    {
        Self { config }
    }

    /// The token to call with, or `MissingToken` where the configuration
    /// holds none or an empty one.
    pub fn token(&self) -> (token: Result<&'a str, DeployError>)
        ensures
            match token {
                Ok(text) => has_token(self.config()) && text@ == self.config().token.unwrap()@,
                Err(error) => !has_token(self.config()) && error is MissingToken,
            },
    {
        match &self.config.token {
            Some(token) => {
                if token.as_str().is_empty() {
                    Err(DeployError::MissingToken)
                } else {
                    Ok(token.as_str())
                }
            },
            None => Err(DeployError::MissingToken),
        }
    }

    /// The headers of every call.
    fn headers(token: &str) -> (headers: Vec<Header>)
        ensures
            call_headers(headers@, token@),
    {
        let mut headers: Vec<Header> = Vec::new();
        headers.push(
            Header {
                name: String::from_str("content-type"),
                value: String::from_str("application/json"),
            },
        );
        headers.push(
            Header { name: String::from_str("x-lagon-token"), value: String::from_str(token) },
        );
        headers
    }

    /// The request that reads the procedure `key`. `input` is the
    /// procedure's input as JSON text, where it takes any; it travels
    /// percent-encoded in the address.
    pub fn query(&self, key: &str, input: Option<&str>) -> (request: Result<
        TrpcRequest,
        DeployError,
    >)
        ensures
            match request {
                Ok(request) => {
                    &&& has_token(self.config())
                    &&& request.method is Get
                    &&& request.uri@ == query_uri(
                        self.config().site_url@,
                        key@,
                        match input {
                            Some(json) => Some(json@),
                            None => None,
                        },
                    )
                    &&& call_headers(request.headers@, self.config().token.unwrap()@)
                    &&& request.body is None
                },
                Err(error) => !has_token(self.config()) && error is MissingToken,
            },
    {
        let token = match self.token() {
            Ok(token) => token,
            Err(error) => {
                return Err(error);
            },
        };
        let mut uri = self.config.site_url.clone();
        uri.append("/api/trpc/");
        uri.append(key);
        match input {
            Some(json) => {
                uri.append("?input=");
                let encoded = encode(json);
                uri.append(encoded.as_str());
            },
            None => {},
        }
        Ok(TrpcRequest { method: Method::Get, uri, headers: Self::headers(token), body: None })
    }

    /// The request that writes through the procedure `key`. `body` is the
    /// procedure's input as JSON text; it travels as the request's body.
    pub fn mutation(&self, key: &str, body: String) -> (request: Result<TrpcRequest, DeployError>)
        ensures
            match request {
                Ok(request) => {
                    &&& has_token(self.config())
                    &&& request.method is Post
                    &&& request.uri@ == endpoint(self.config().site_url@, key@)
                    &&& call_headers(request.headers@, self.config().token.unwrap()@)
                    &&& request.body == Some(body)
                },
                Err(error) => !has_token(self.config()) && error is MissingToken,
            },
    {
        let token = match self.token() {
            Ok(token) => token,
            Err(error) => {
                return Err(error);
            },
        };
        let mut uri = self.config.site_url.clone();
        uri.append("/api/trpc/");
        uri.append(key);
        Ok(
            TrpcRequest {
                method: Method::Post,
                uri,
                headers: Self::headers(token),
                body: Some(body),
            },
        )
    }
}

/// What an answer of the control plane amounts to. `success` is the body
/// decoded as the envelope of a result, where it is one; `failure` is the
/// body decoded as the envelope of an error, where it is one. A result is
/// handed on; failing that, the remote's error is surfaced as `RemoteError`
/// with its message; failing both, the body itself as `ProtocolError`.
pub fn decode_response<R>(
    success: Option<TrpcResponse<R>>,
    failure: Option<TrpcErrorResult>,
    body: String,
) -> (decoded: Result<TrpcResponse<R>, DeployError>)
    ensures
        match success {
            Some(response) => decoded == Ok::<TrpcResponse<R>, DeployError>(response),
            None => match failure {
                Some(envelope) => decoded matches Err(DeployError::RemoteError(message))
                    && message == envelope.error.message,
                None => decoded matches Err(DeployError::ProtocolError(raw)) && raw == body,
            },
        },
{
    match success {
        Some(response) => Ok(response),
        None => match failure {
            Some(envelope) => Err(DeployError::RemoteError(envelope.error.message)),
            None => Err(DeployError::ProtocolError(body)),
        },
    }
}

} // verus!
