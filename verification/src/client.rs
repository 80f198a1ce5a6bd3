//! The client: which request each operation sends, and what the response to
//! it means.
//!
//! The client holds the account and the service's address. It does not talk
//! to the network: an operation is a request to perform, and a reading of
//! what came back.

use crate::decode::{decode_subscriptions, subscriptions_in};
use crate::error::{DecodeError, Error, TransportFailure};
use crate::json::json_text;
use crate::subscription::{views, Subscription};
use vstd::prelude::*;
use vstd::string::StringExecFns;

verus! {

/// Where the service lives unless the caller says otherwise.
pub const DEFAULT_ENDPOINT: &'static str = "https://api.feedbin.com";

/// The resource that answers whether the credentials are valid.
pub const AUTHENTICATION_PATH: &'static str = "/v2/authentication.json";

/// The resource that lists the account's subscriptions.
pub const SUBSCRIPTIONS_PATH: &'static str = "/v2/subscriptions.json";

/// The one status that carries an answer.
pub const STATUS_OK: u32 = 200;

/// An HTTP GET with basic authentication.
#[derive(Debug, Clone, PartialEq, Eq)]
pub struct Request {
    pub url: String,
    pub username: String,
    pub password: String,
}

/// What the service sent back.
#[derive(Debug, Clone, PartialEq, Eq)]
pub struct Response {
    pub status: u32,
    pub body: Vec<u8>,
}

/// A Feedbin account at a service address.
#[derive(Debug, Clone, PartialEq, Eq)]
pub struct Feedbin {
    endpoint: String,
    username: String,
    password: String,
}

/// A client as a mathematical value.
pub struct FeedbinView {
    pub endpoint: Seq<char>,
    pub username: Seq<char>,
    pub password: Seq<char>,
}

impl View for Feedbin {
    type V = FeedbinView;

    closed spec fn view(&self) -> FeedbinView {
        FeedbinView {
            endpoint: self.endpoint@,
            username: self.username@,
            password: self.password@,
        }
    }
}

impl Feedbin {
    /// A client for the account at the default address.
    pub fn new(username: &str, password: &str) -> (r: Feedbin)
        ensures
            r@.endpoint == DEFAULT_ENDPOINT@,
            r@.username == username@,
            r@.password == password@,
    {
        Feedbin::new_with_endpoint(username, password, DEFAULT_ENDPOINT)
    }

    /// A client for the account at `endpoint`, which is used as it stands as
    /// the prefix of every URL.
    pub fn new_with_endpoint(username: &str, password: &str, endpoint: &str) -> (r: Feedbin)
        ensures
            r@.endpoint == endpoint@,
            r@.username == username@,
            r@.password == password@,
    {
        Feedbin {
            endpoint: endpoint.to_owned(),
            username: username.to_owned(),
            password: password.to_owned(),
        }
    }

    fn request(&self, path: &str) -> (r: Request)
        ensures
            r.url@ == self@.endpoint + path@,
            r.username@ == self@.username,
            r.password@ == self@.password,
    {
        Request {
            url: self.endpoint.clone().concat(path),
            username: self.username.clone(),
            password: self.password.clone(),
        }
    }

    /// The request that asks whether the credentials are valid.
    pub fn authentication_request(&self) -> (r: Request)
        ensures
            r.url@ == self@.endpoint + AUTHENTICATION_PATH@,
            r.username@ == self@.username,
            r.password@ == self@.password,
    {
        self.request(AUTHENTICATION_PATH)
    }

    /// The request that asks for the account's subscriptions.
    pub fn subscriptions_request(&self) -> (r: Request)
        ensures
            r.url@ == self@.endpoint + SUBSCRIPTIONS_PATH@,
            r.username@ == self@.username,
            r.password@ == self@.password,
    {
        self.request(SUBSCRIPTIONS_PATH)
    }

    /// Reads the outcome of the authentication request: the credentials are
    /// valid exactly when the service answered 200. Any other status is the
    /// answer `false`, not an error; only a failed exchange is an error.
    pub fn is_authenticated(&self, outcome: Result<Response, TransportFailure>) -> (r: Result<
        bool,
        Error,
    >)
        ensures
            match outcome {
                Ok(response) if response.status == STATUS_OK => r == Ok::<bool, Error>(true),
                Ok(response) => r == Ok::<bool, Error>(false),
                Err(failure) => r == Err::<bool, Error>(Error::Transport(failure)),
            },
    {
        match outcome {
            Ok(response) => Ok(response.status == STATUS_OK),
            Err(failure) => Err(Error::from(failure)),
        }
    }

    /// Reads the outcome of the subscriptions request.
    ///
    /// A failed exchange is `Transport`; a status other than 200 is
    /// `UnexpectedStatus` with that status, whatever the body holds; a body
    /// that is not a JSON text, or not a list of subscriptions, is `Decode`.
    /// Otherwise the result is the list that the body describes, in order.
    pub fn get_subscriptions(&self, outcome: Result<Response, TransportFailure>) -> (r: Result<
        Vec<Subscription>,
        Error,
    >)
        ensures
            match outcome {
                Err(failure) => r == Err::<Vec<Subscription>, Error>(Error::Transport(failure)),
                Ok(response) if response.status != STATUS_OK => r == Err::<
                    Vec<Subscription>,
                    Error,
                >(Error::UnexpectedStatus(response.status)),
                Ok(response) => match json_text(response.body@) {
                    None => r matches Err(Error::Decode(DecodeError::Syntax(_))),
                    Some(document) => match subscriptions_in(document) {
                        Ok(records) => r matches Ok(list) && views(list@) == records,
                        Err(e) => r == Err::<Vec<Subscription>, Error>(
                            Error::Decode(DecodeError::Shape(e)),
                        ),
                    },
                },
            },
    {
        let response = match outcome {
            Ok(response) => response,
            Err(failure) => return Err(Error::from(failure)),
        };
        if response.status != STATUS_OK {
            return Err(Error::UnexpectedStatus(response.status));
        }
        match decode_subscriptions(response.body.as_slice()) {
            Ok(list) => Ok(list),
            Err(e) => Err(Error::from(e)),
        }
    }
}

} // verus!
