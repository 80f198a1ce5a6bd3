//! What can go wrong between asking the service and holding an answer.

use crate::decimal::{decimal, to_decimal};
use vstd::prelude::*;
use vstd::std_specs::convert::FromSpecImpl;
use vstd::string::StringExecFns;

verus! {

/// The exchange with the service did not complete: the name could not be
/// resolved, the connection failed, TLS was refused, and the like.
#[derive(Debug, Clone, PartialEq, Eq)]
pub struct TransportFailure {
    /// The transport's own number for the failure.
    pub code: u32,
    /// The transport's description of it.
    pub message: String,
}

/// The members that a subscription record must have.
#[derive(Debug, Clone, Copy, PartialEq, Eq)]
pub enum Field {
    Id,
    CreatedAt,
    FeedId,
    Title,
    FeedUrl,
    SiteUrl,
}

impl Field {
    /// The characters of the member's name in the JSON object.
    pub open spec fn key(self) -> Seq<char> {
        match self {
            Field::Id => "id"@,
            Field::CreatedAt => "created_at"@,
            Field::FeedId => "feed_id"@,
            Field::Title => "title"@,
            Field::FeedUrl => "feed_url"@,
            Field::SiteUrl => "site_url"@,
        }
    }

    /// The member's name in the JSON object.
    pub fn name(self) -> (r: &'static str)
        ensures
            r@ == self.key(),
    {
        match self {
            Field::Id => "id",
            Field::CreatedAt => "created_at",
            Field::FeedId => "feed_id",
            Field::Title => "title",
            Field::FeedUrl => "feed_url",
            Field::SiteUrl => "site_url",
        }
    }

    /// Whether the member holds an unsigned integer; the others hold text.
    pub open spec fn is_integer(self) -> bool {
        self == Field::Id || self == Field::FeedId
    }
}

/// No two fields share a name, so one object can hold them all.
pub proof fn lemma_keys_are_distinct(a: Field, b: Field)
    requires
        a != b,
    ensures
        a.key() != b.key(),
{
    reveal_strlit("id");
    reveal_strlit("created_at");
    reveal_strlit("feed_id");
    reveal_strlit("title");
    reveal_strlit("feed_url");
    reveal_strlit("site_url");
    assert("id"@.len() == 2);
    assert("created_at"@.len() == 10);
    assert("feed_id"@.len() == 7);
    assert("title"@.len() == 5);
    assert("feed_url"@.len() == 8 && "feed_url"@[0] == 'f');
    assert("site_url"@.len() == 8 && "site_url"@[0] == 's');
}

/// A well-formed JSON document that is not a list of subscriptions.
#[derive(Debug, Clone, Copy, PartialEq, Eq)]
pub enum ShapeError {
    /// The document is not an array.
    NotAnArray,
    /// The element at `index` is not an object with a member `field` of the
    /// right kind; its earlier fields, and all earlier elements, are in order.
    BadField { index: usize, field: Field },
}

impl ShapeError {
    /// What the error says, in words.
    pub open spec fn description(self) -> Seq<char> {
        match self {
            ShapeError::NotAnArray => "expected an array of subscriptions"@,
            ShapeError::BadField { index, field } => "subscription "@ + decimal(index as nat)
                + " has no valid `"@ + field.key() + "`"@,
        }
    }

    /// What the error says, in words.
    pub fn describe(&self) -> (r: String)
        ensures
            r@ == self.description(),
    {
        match self {
            ShapeError::NotAnArray => "expected an array of subscriptions".to_owned(),
            ShapeError::BadField { index, field } => {
                let mut text = "subscription ".to_owned();
                text.append(to_decimal(*index as u64).as_str());
                text.append(" has no valid `");
                text.append(field.name());
                text.append("`");
                text
            },
        }
    }
}

/// Where and why the JSON parser gave up on a text.
#[derive(Debug, Clone, PartialEq, Eq)]
pub struct SyntaxError {
    /// One-based line of the text at which the parser stopped.
    pub line: usize,
    /// One-based column in that line.
    pub column: usize,
    /// The parser's message.
    pub message: String,
}

/// The response body could not be read as a list of subscriptions.
#[derive(Debug, Clone, PartialEq, Eq)]
pub enum DecodeError {
    /// The body is not a JSON text.
    Syntax(SyntaxError),
    /// The body is a JSON text of another shape.
    Shape(ShapeError),
}

impl DecodeError {
    /// What the error says: the parser's message, or the description of the
    /// shape that was expected.
    pub open spec fn description(self) -> Seq<char> {
        match self {
            DecodeError::Syntax(e) => e.message@,
            DecodeError::Shape(e) => e.description(),
        }
    }

    /// What the error says, in words.
    pub fn describe(&self) -> (r: String)
        ensures
            r@ == self.description(),
    {
        match self {
            DecodeError::Syntax(e) => e.message.clone(),
            DecodeError::Shape(e) => e.describe(),
        }
    }
}

/// Why an operation gave no answer.
#[derive(Debug, Clone, PartialEq, Eq)]
pub enum Error {
    /// The exchange itself failed.
    Transport(TransportFailure),
    /// The service answered with a body that could not be decoded.
    Decode(DecodeError),
    /// The service answered with a status other than 200 where only 200
    /// carries an answer.
    UnexpectedStatus(u32),
}

impl Error {
    /// What the error says: the kind of failure, then its cause.
    pub open spec fn description(self) -> Seq<char> {
        match self {
            Error::Transport(failure) => "CURL Error: "@ + failure.message@,
            Error::Decode(e) => "JSON Error: "@ + e.description(),
            Error::UnexpectedStatus(status) => "HTTP Error: unexpected status "@ + decimal(
                status as nat,
            ),
        }
    }

    /// What the error says, in words.
    pub fn describe(&self) -> (r: String)
        ensures
            r@ == self.description(),
    {
        match self {
            Error::Transport(failure) => "CURL Error: ".to_owned().concat(failure.message.as_str()),
            Error::Decode(e) => "JSON Error: ".to_owned().concat(e.describe().as_str()),
            Error::UnexpectedStatus(status) => "HTTP Error: unexpected status ".to_owned().concat(
                to_decimal(*status as u64).as_str(),
            ),
        }
    }
}

impl From<TransportFailure> for Error {
    fn from(failure: TransportFailure) -> (r: Error) {
        Error::Transport(failure)
    }
}

impl FromSpecImpl<TransportFailure> for Error {
    open spec fn obeys_from_spec() -> bool {
        true
    }

    open spec fn from_spec(failure: TransportFailure) -> Error {
        Error::Transport(failure)
    }
}

impl From<DecodeError> for Error {
    fn from(error: DecodeError) -> (r: Error) {
        Error::Decode(error)
    }
}

impl FromSpecImpl<DecodeError> for Error {
    open spec fn obeys_from_spec() -> bool {
        true
    }

    open spec fn from_spec(error: DecodeError) -> Error {
        Error::Decode(error)
    }
}

} // verus!
