use gstm::{create, create_request, CreateGistPayload, Error, FileRead, Method};
use reqwest::header::AUTHORIZATION;

fn read(path: &str, content: &str) -> FileRead {
    FileRead { path: String::from(path), outcome: Ok(String::from(content)) }
}

fn unreadable(path: &str, message: &str) -> FileRead {
    FileRead {
        path: String::from(path),
        outcome: Err(std::io::Error::new(std::io::ErrorKind::NotFound, String::from(message))),
    }
}

fn pairs(payload: &CreateGistPayload) -> Vec<(String, String)> {
    payload.entries_list().iter().map(|(p, f)| (p.clone(), f.content.clone())).collect()
}

#[test]
fn new_payload_is_empty() {
    let payload = CreateGistPayload::new(None, false);
    assert_eq!(payload.description(), "");
    assert!(!payload.public());
    assert!(payload.entries_list().is_empty());
    assert!(payload.content_of("a.txt").is_none());
    let described = CreateGistPayload::new(Some(String::from("notes")), true);
    assert_eq!(described.description(), "notes");
    assert!(described.public());
}

#[test]
fn payload_has_one_entry_per_path() {
    let reads = vec![read("a.txt", "alpha"), read("dir/b.rs", "fn main() {}\n"), read("c", "")];
    let payload = CreateGistPayload::from_reads(reads, true, Some(String::from("three"))).unwrap();
    assert_eq!(
        pairs(&payload),
        vec![
            (String::from("a.txt"), String::from("alpha")),
            (String::from("dir/b.rs"), String::from("fn main() {}\n")),
            (String::from("c"), String::new()),
        ]
    );
    assert_eq!(payload.content_of("a.txt").unwrap(), "alpha");
    assert_eq!(payload.content_of("dir/b.rs").unwrap(), "fn main() {}\n");
    assert_eq!(payload.content_of("c").unwrap(), "");
    assert!(payload.content_of("b.rs").is_none());
    assert_eq!(payload.description(), "three");
    assert!(payload.public());
}

#[test]
fn content_is_kept_byte_for_byte() {
    let content = "tab\there \u{e9}\u{4e16}\u{1f600}\r\n\"quoted\" \\ end\n";
    let payload = CreateGistPayload::from_reads(vec![read("odd name \u{fc}.txt", content)], false, None)
        .unwrap();
    assert_eq!(payload.content_of("odd name \u{fc}.txt").unwrap().as_bytes(), content.as_bytes());
}

#[test]
fn path_given_twice_is_held_once_with_the_later_content() {
    let reads = vec![read("a.txt", "first"), read("b.txt", "other"), read("a.txt", "second")];
    let payload = CreateGistPayload::from_reads(reads, false, None).unwrap();
    assert_eq!(
        pairs(&payload),
        vec![
            (String::from("a.txt"), String::from("second")),
            (String::from("b.txt"), String::from("other")),
        ]
    );
}

#[test]
fn insert_replaces_and_adds() {
    let mut payload = CreateGistPayload::new(None, false);
    payload.insert(String::from("x"), String::from("1"));
    payload.insert(String::from("y"), String::from("2"));
    payload.insert(String::from("x"), String::from("3"));
    assert_eq!(
        pairs(&payload),
        vec![(String::from("x"), String::from("3")), (String::from("y"), String::from("2"))]
    );
    assert_eq!(payload.description(), "");
    assert!(!payload.public());
}

#[test]
fn no_files_give_an_empty_payload() {
    let payload = CreateGistPayload::from_reads(Vec::new(), false, None).unwrap();
    assert!(payload.entries_list().is_empty());
}

#[test]
fn unreadable_file_gives_its_file_error() {
    let reads = vec![read("a.txt", "alpha"), unreadable("missing.txt", "missing.txt: not there")];
    match CreateGistPayload::from_reads(reads, false, None) {
        Err(Error::FileIOError(cause)) => {
            assert_eq!(cause.kind(), std::io::ErrorKind::NotFound);
            assert_eq!(cause.to_string(), "missing.txt: not there");
        },
        other => panic!("{:?}", other),
    }
}

#[test]
fn first_unreadable_file_decides() {
    let reads = vec![
        unreadable("one", "first failure"),
        read("two", "fine"),
        unreadable("three", "second failure"),
    ];
    match CreateGistPayload::from_reads(reads, true, Some(String::from("d"))) {
        Err(Error::FileIOError(cause)) => assert_eq!(cause.to_string(), "first failure"),
        other => panic!("{:?}", other),
    }
}

#[test]
fn create_request_carries_the_payload_it_is_given() {
    let mut payload = CreateGistPayload::new(Some(String::from("two files")), true);
    payload.insert(String::from("a"), String::from("1"));
    payload.insert(String::from("b"), String::from("2"));
    let request = create_request(payload, String::from("tok"));
    assert_eq!(request.method, Method::Post);
    assert_eq!(request.url, "https://api.github.com/gists");
    assert_eq!(request.headers.get(AUTHORIZATION).unwrap().as_bytes(), b"token tok");
    let sent = request.payload.unwrap();
    assert_eq!(sent.description(), "two files");
    assert!(sent.public());
    assert_eq!(
        pairs(&sent),
        vec![(String::from("a"), String::from("1")), (String::from("b"), String::from("2"))]
    );
}

#[test]
fn create_with_unreadable_file_gives_no_request() {
    let files = vec![read("a.txt", "hello"), unreadable("b.txt", "b.txt: denied"), read("c", "x")];
    match create(files, false, None, String::from("T")) {
        Err(Error::FileIOError(cause)) => assert_eq!(cause.to_string(), "b.txt: denied"),
        other => panic!("{:?}", other),
    }
}

#[test]
fn create_scenario_one_private_file() {
    let request = create(vec![read("a.txt", "hello")], false, None, String::from("T")).unwrap();
    assert_eq!(request.method, Method::Post);
    assert_eq!(request.url, "https://api.github.com/gists");
    assert_eq!(request.headers.get(AUTHORIZATION).unwrap().as_bytes(), b"token T");
    let sent = request.payload.unwrap();
    assert_eq!(sent.description(), "");
    assert!(!sent.public());
    assert_eq!(pairs(&sent), vec![(String::from("a.txt"), String::from("hello"))]);
}
