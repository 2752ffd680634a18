//! The records that the service returns.

use std::collections::HashMap;
use vstd::prelude::*;

verus! {

/// The account that created a collection.
#[derive(Debug)]
pub struct User {
    /// The account's name, where the service gives it.
    pub login: Option<String>,
}

/// One file of a collection.
#[derive(Debug)]
pub struct File {
    /// Where the file's full content can be fetched.
    pub raw_url: Option<String>,
    pub filename: Option<String>,
    /// The language that the service takes the file to be written in.
    pub language: Option<String>,
    /// The content, where the service sends it along.
    pub content: Option<String>,
    /// The size of the file in bytes.
    pub size: usize,
    /// Whether `content` is only the beginning of the file.
    pub truncated: Option<bool>,
}

/// A collection of files, as the service describes it. Every field but
/// `public` and `files` may be absent; `files` may be empty.
#[derive(Debug)]
pub struct Gist {
    /// The address of the collection for programs.
    pub url: Option<String>,
    /// The address of the collection for people.
    pub html_url: Option<String>,
    pub id: Option<String>,
    pub description: Option<String>,
    pub public: bool,
    /// When the collection was created, as an ISO 8601 timestamp.
    pub created_at: Option<String>,
    /// The account that created the collection; absent for an anonymous one.
    pub owner: Option<User>,
    /// The files, each under its name.
    pub files: HashMap<String, File>,
}

} // verus!
