use gstm::error::detailed;
use gstm::{api_status, check_status, Error};

fn refused(code: u16) -> String {
    match check_status(code) {
        Err(Error::APIError { status }) => status,
        other => panic!("status {} gave {:?}", code, other),
    }
}

#[test]
fn success_statuses_pass() {
    assert!(check_status(200).is_ok());
    assert!(check_status(201).is_ok());
    assert!(check_status(204).is_ok());
    assert!(check_status(299).is_ok());
}

#[test]
fn statuses_around_success_are_refused() {
    assert_eq!(refused(199), "199 ");
    assert_eq!(refused(300), "300 Multiple Choices");
    assert_eq!(refused(100), "100 Continue");
    assert_eq!(refused(999), "999 ");
}

#[test]
fn not_found_is_an_api_error() {
    assert_eq!(refused(404), "404 Not Found");
}

#[test]
fn refusals_carry_their_status() {
    assert_eq!(refused(401), "401 Unauthorized");
    assert_eq!(refused(403), "403 Forbidden");
    assert_eq!(refused(422), "422 Unprocessable Entity");
    assert_eq!(refused(500), "500 Internal Server Error");
    assert_eq!(refused(503), "503 Service Unavailable");
}

#[test]
fn every_refusal_starts_with_its_three_digits() {
    for code in 100u16..=999 {
        let outcome = check_status(code);
        if (200..300).contains(&code) {
            assert!(outcome.is_ok());
        } else {
            let status = refused(code);
            assert_eq!(&status[..3], format!("{}", code));
            assert_eq!(&status[3..4], " ");
        }
    }
}

#[test]
fn status_without_phrase_ends_in_the_space() {
    assert_eq!(refused(599), "599 ");
    assert_eq!(api_status("599", None), "599 ");
}

#[test]
fn status_text_joins_digits_and_phrase() {
    assert_eq!(api_status("404", Some("Not Found")), "404 Not Found");
    assert_eq!(api_status("200", Some("OK")), "200 OK");
    assert_eq!(api_status("", Some("")), " ");
}

#[test]
fn messages_name_the_kind() {
    let api = Error::APIError { status: String::from("404 Not Found") };
    assert_eq!(api.message(), "GitHub responded with a HTTP status of 404 Not Found");
    let io = Error::FileIOError(std::io::Error::new(std::io::ErrorKind::NotFound, "gone"));
    assert_eq!(io.message(), "File I/O error occurred");
}

#[test]
fn read_failure_becomes_file_error() {
    let cause = std::io::Error::new(std::io::ErrorKind::PermissionDenied, "locked");
    match Error::from(cause) {
        Error::FileIOError(e) => {
            assert_eq!(e.kind(), std::io::ErrorKind::PermissionDenied);
            assert_eq!(e.to_string(), "locked");
        },
        other => panic!("{:?}", other),
    }
}

#[test]
fn report_of_a_refusal_is_its_message() {
    let api = Error::APIError { status: String::from("500 Internal Server Error") };
    assert_eq!(api.report(), "GitHub responded with a HTTP status of 500 Internal Server Error");
    assert_eq!(api.report(), api.message());
}

#[test]
fn report_of_a_read_failure_adds_the_cause() {
    let io = Error::FileIOError(std::io::Error::new(std::io::ErrorKind::NotFound, "a.txt is gone"));
    assert_eq!(io.report(), "File I/O error occurred: a.txt is gone");
}

#[test]
fn detail_follows_colon_and_space() {
    assert_eq!(detailed("File I/O error occurred", "gone"), "File I/O error occurred: gone");
    assert_eq!(detailed("", ""), ": ");
}
