use std::io;

use teloxide::types::Seconds;
use teloxide::RequestError;
use tepe_error::Error;

#[test]
fn request_failure_becomes_request_error() {
    let e = Error::from(RequestError::RetryAfter(Seconds::from_seconds(5)));
    match e {
        Error::RequestError { description } => assert_eq!(description, "Retry after 5s"),
        other => panic!("unexpected variant: {:?}", other),
    }
}

#[test]
fn request_failure_message() {
    let e = Error::from(RequestError::RetryAfter(Seconds::from_seconds(30)));
    assert_eq!(e.message(), "\nMessage failed to send due to:\n\tRetry after 30s");
}

#[test]
fn io_failure_becomes_tokio_error() {
    let e = Error::from(io::Error::new(io::ErrorKind::Other, "disk gone"));
    match e {
        Error::TokioError { description } => assert_eq!(description, "disk gone"),
        other => panic!("unexpected variant: {:?}", other),
    }
}

#[test]
fn io_failure_message() {
    let e = Error::from(io::Error::new(io::ErrorKind::NotFound, "no such chat"));
    assert_eq!(e.message(), "\nMessage failed to send due to:\n\tno such chat");
}

#[test]
fn parse_failure_becomes_parsing_error() {
    let failure = "12ab".parse::<i64>().unwrap_err();
    let e = Error::from(failure);
    match e {
        Error::ParsingError { description } => {
            assert_eq!(description, "invalid digit found in string")
        }
        other => panic!("unexpected variant: {:?}", other),
    }
}

#[test]
fn empty_parse_failure_message() {
    let failure = "".parse::<i64>().unwrap_err();
    let e = Error::from(failure);
    assert_eq!(e.message(), "\nError from parsing:\n\tcannot parse integer from empty string");
}
