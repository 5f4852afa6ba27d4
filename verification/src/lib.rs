//! A catalog of HTTP status codes, each paired with a cat-themed image served
//! by a fixed remote host.
//!
//! The catalog is the closed enumeration [`HttpCat`]: a fallible lookup from a
//! numeric code (`HttpCat::try_from`), a total projection back to the code
//! (`HttpCat::to_code`), and conversions from the status types of the `http`
//! and `rocket` crates. Fetching an image is split in two: the library builds
//! the request URL (`HttpCat::request_url`) and turns the outcome of the
//! network exchange into a decoded bitmap or an [`Error`]
//! (`process_response`); the network call itself is the caller's.

mod adapters;
mod catalog;
mod fetch;

pub use catalog::Error;
pub use catalog::HttpCat;
pub use catalog::lemma_code_injective;
pub use catalog::lemma_from_code_of_code;
pub use adapters::http_status_u16;
pub use adapters::rocket_status_u16;
pub use fetch::code_digits;
pub use fetch::decode_image;
pub use fetch::digit_char;
pub use fetch::jpeg_decode_of;
pub use fetch::jpeg_decodes;
pub use fetch::process_response;
pub use fetch::url_chars;
