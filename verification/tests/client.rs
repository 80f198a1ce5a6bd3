use feedbin::client::{AUTHENTICATION_PATH, DEFAULT_ENDPOINT, STATUS_OK, SUBSCRIPTIONS_PATH};
use feedbin::{
    DecodeError, Error, Feedbin, Field, Request, Response, ShapeError, Subscription,
    TransportFailure,
};

const LISTING: &[u8] = br#"[
  {
    "id": 525,
    "created_at": "2013-03-12T11:30:25.209432Z",
    "feed_id": 47,
    "title": "Daring Fireball",
    "feed_url": "http://daringfireball.net/index.xml",
    "site_url": "http://daringfireball.net/"
  },
  {
    "id": 526,
    "created_at": "2013-03-12T11:30:26.000000Z",
    "feed_id": 48,
    "title": "kottke.org",
    "feed_url": "http://feeds.kottke.org/main",
    "site_url": "http://kottke.org/"
  }
]"#;

fn feedbin() -> Feedbin {
    Feedbin::new("user@example.com", "hunter2")
}

fn answered(status: u32, body: &[u8]) -> Result<Response, TransportFailure> {
    Ok(Response { status, body: body.to_vec() })
}

fn refused() -> TransportFailure {
    TransportFailure { code: 7, message: String::from("Couldn't connect to server") }
}

fn daring_fireball() -> Subscription {
    Subscription {
        id: 525,
        created_at: String::from("2013-03-12T11:30:25.209432Z"),
        feed_id: 47,
        title: String::from("Daring Fireball"),
        feed_url: String::from("http://daringfireball.net/index.xml"),
        site_url: String::from("http://daringfireball.net/"),
    }
}

fn kottke() -> Subscription {
    Subscription {
        id: 526,
        created_at: String::from("2013-03-12T11:30:26.000000Z"),
        feed_id: 48,
        title: String::from("kottke.org"),
        feed_url: String::from("http://feeds.kottke.org/main"),
        site_url: String::from("http://kottke.org/"),
    }
}

#[test]
fn authenticated() {
    let feedbin = feedbin();
    assert!(feedbin.is_authenticated(answered(200, b"")).unwrap());
}

#[test]
fn subscriptions() {
    let feedbin = feedbin();
    let subscriptions = feedbin.get_subscriptions(answered(200, LISTING));
    assert!(subscriptions.unwrap().len() > 0);
}

#[test]
fn rejected_credentials_are_an_answer_not_an_error() {
    let feedbin = Feedbin::new("user@example.com", "wrong");
    assert_eq!(feedbin.is_authenticated(answered(401, b"HTTP Basic: Access denied.\n")), Ok(false));
}

#[test]
fn only_status_200_authenticates() {
    let feedbin = feedbin();
    for status in 0..1000u32 {
        let answer = feedbin.is_authenticated(answered(status, b""));
        assert_eq!(answer, Ok(status == 200), "status {}", status);
    }
    assert_eq!(feedbin.is_authenticated(answered(u32::MAX, b"")), Ok(false));
}

#[test]
fn authentication_does_not_read_the_body() {
    let feedbin = feedbin();
    assert_eq!(feedbin.is_authenticated(answered(200, b"not json")), Ok(true));
    assert_eq!(feedbin.is_authenticated(answered(200, LISTING)), Ok(true));
    assert_eq!(feedbin.is_authenticated(answered(403, LISTING)), Ok(false));
}

#[test]
fn authentication_surfaces_a_transport_failure() {
    let feedbin = feedbin();
    assert_eq!(feedbin.is_authenticated(Err(refused())), Err(Error::Transport(refused())));
}

#[test]
fn subscriptions_surface_a_transport_failure() {
    let feedbin = feedbin();
    assert_eq!(feedbin.get_subscriptions(Err(refused())), Err(Error::Transport(refused())));
}

#[test]
fn subscriptions_equal_the_listing() {
    let feedbin = feedbin();
    let subscriptions = feedbin.get_subscriptions(answered(200, LISTING));
    assert_eq!(subscriptions, Ok(vec![daring_fireball(), kottke()]));
}

#[test]
fn subscriptions_may_be_none() {
    let feedbin = feedbin();
    assert_eq!(feedbin.get_subscriptions(answered(200, b"[]")), Ok(vec![]));
}

#[test]
fn malformed_body_is_a_decode_error() {
    let feedbin = feedbin();
    for body in [&b"["[..], b"", b"[{\"id\": 525,", b"<html></html>", b"[] []", b"\xff\xfe"] {
        let answer = feedbin.get_subscriptions(answered(200, body));
        assert!(
            matches!(answer, Err(Error::Decode(DecodeError::Syntax(_)))),
            "body {:?} gave {:?}",
            body,
            answer
        );
    }
}

#[test]
fn body_of_another_shape_is_a_decode_error() {
    let feedbin = feedbin();
    assert_eq!(
        feedbin.get_subscriptions(answered(200, b"{\"status\": \"ok\"}")),
        Err(Error::Decode(DecodeError::Shape(ShapeError::NotAnArray)))
    );
    assert_eq!(
        feedbin.get_subscriptions(answered(200, b"[{\"id\": 525}]")),
        Err(Error::Decode(DecodeError::Shape(ShapeError::BadField {
            index: 0,
            field: Field::CreatedAt
        })))
    );
}

#[test]
fn other_status_is_an_explicit_error() {
    let feedbin = feedbin();
    for status in [0u32, 100, 201, 204, 301, 304, 401, 403, 404, 500, 503] {
        assert_eq!(
            feedbin.get_subscriptions(answered(status, b"")),
            Err(Error::UnexpectedStatus(status))
        );
    }
}

#[test]
fn other_status_wins_over_the_body() {
    let feedbin = feedbin();
    assert_eq!(
        feedbin.get_subscriptions(answered(401, LISTING)),
        Err(Error::UnexpectedStatus(401))
    );
    assert_eq!(
        feedbin.get_subscriptions(answered(500, b"{")),
        Err(Error::UnexpectedStatus(500))
    );
}

#[test]
fn default_endpoint_is_the_public_service() {
    assert_eq!(DEFAULT_ENDPOINT, "https://api.feedbin.com");
    assert_eq!(AUTHENTICATION_PATH, "/v2/authentication.json");
    assert_eq!(SUBSCRIPTIONS_PATH, "/v2/subscriptions.json");
    assert_eq!(STATUS_OK, 200);
    let feedbin = feedbin();
    assert_eq!(
        feedbin.authentication_request().url,
        "https://api.feedbin.com/v2/authentication.json"
    );
    assert_eq!(
        feedbin.subscriptions_request().url,
        "https://api.feedbin.com/v2/subscriptions.json"
    );
}

#[test]
fn new_is_new_with_the_default_endpoint() {
    assert_eq!(
        Feedbin::new("user@example.com", "hunter2"),
        Feedbin::new_with_endpoint("user@example.com", "hunter2", "https://api.feedbin.com")
    );
}

#[test]
fn endpoint_can_be_overridden() {
    let feedbin = Feedbin::new_with_endpoint("u", "p", "http://127.0.0.1:8080");
    assert_eq!(
        feedbin.authentication_request(),
        Request {
            url: String::from("http://127.0.0.1:8080/v2/authentication.json"),
            username: String::from("u"),
            password: String::from("p"),
        }
    );
    assert_eq!(
        feedbin.subscriptions_request(),
        Request {
            url: String::from("http://127.0.0.1:8080/v2/subscriptions.json"),
            username: String::from("u"),
            password: String::from("p"),
        }
    );
}

#[test]
fn endpoint_is_used_as_it_stands() {
    let slash = Feedbin::new_with_endpoint("u", "p", "http://mock/");
    assert_eq!(slash.authentication_request().url, "http://mock//v2/authentication.json");
    let empty = Feedbin::new_with_endpoint("u", "p", "");
    assert_eq!(empty.subscriptions_request().url, "/v2/subscriptions.json");
}

#[test]
fn requests_carry_the_credentials() {
    let feedbin = Feedbin::new("user@example.com", "p\u{e4}ss w\u{f6}rd");
    let request = feedbin.authentication_request();
    assert_eq!(request.username, "user@example.com");
    assert_eq!(request.password, "p\u{e4}ss w\u{f6}rd");
    let request = feedbin.subscriptions_request();
    assert_eq!(request.username, "user@example.com");
    assert_eq!(request.password, "p\u{e4}ss w\u{f6}rd");
}

#[test]
fn errors_convert_from_their_causes() {
    assert_eq!(Error::from(refused()), Error::Transport(refused()));
    assert_eq!(
        Error::from(DecodeError::Shape(ShapeError::NotAnArray)),
        Error::Decode(DecodeError::Shape(ShapeError::NotAnArray))
    );
}

#[test]
fn errors_describe_themselves() {
    assert_eq!(
        Error::Transport(refused()).describe(),
        "CURL Error: Couldn't connect to server"
    );
    assert_eq!(Error::UnexpectedStatus(404).describe(), "HTTP Error: unexpected status 404");
    assert_eq!(Error::UnexpectedStatus(0).describe(), "HTTP Error: unexpected status 0");
    assert_eq!(
        Error::Decode(DecodeError::Shape(ShapeError::NotAnArray)).describe(),
        "JSON Error: expected an array of subscriptions"
    );
    assert_eq!(
        Error::Decode(DecodeError::Shape(ShapeError::BadField { index: 12, field: Field::FeedUrl }))
            .describe(),
        "JSON Error: subscription 12 has no valid `feed_url`"
    );
    let feedbin = feedbin();
    let malformed = feedbin.get_subscriptions(answered(200, b"[")).unwrap_err();
    assert_eq!(malformed.describe(), "JSON Error: EOF while parsing a list at line 1 column 1");
}
