//! The request and response logic of a client for a Gist-style snippet
//! service: which request each operation sends, and what a reply means.
//!
//! Nothing here touches the network or the file system. A caller reads the
//! files, sends the request that this crate describes, and hands back what
//! came of it.

pub mod error;
pub mod headers;
pub mod listing;
pub mod model;
pub mod payload;
pub mod request;
pub mod status;
pub mod text;

pub use error::Error;
pub use headers::{build_headers, token_is_valid};
pub use listing::{description_limit, listing_line, owner_name, summarizable, summarize};
pub use model::{File, Gist, User};
pub use payload::{CreateGistFilePayload, CreateGistPayload, FileRead};
pub use request::{
    create, create_request, get, get_endpoint, list, list_endpoint, Method, Request, Since,
};
pub use status::{api_status, check_status};
