//! Stateless short links for a fixed catalogue of destination URL shapes.
//!
//! A destination URL that fits one of the catalogue's templates is reduced to
//! the triple (community, platform, item) and handed to a reversible integer
//! codec, which yields the short code. A short code is decoded back to its
//! triple and the destination URL is rebuilt from the same catalogue.
//!
//! - [`registry`]: communities, platforms and the catalogue of templates.
//! - [`triple`]: the three numbers inside a short code.
//! - [`encoder`]: from a URL to its short code.
//! - [`decoder`]: from a short code to its URL.
//! - [`page`]: the HTML page that redirects to a destination.
//! - [`routes`]: the two requests of the service and their answers.
//! - [`laws`]: what is proved of all of this together.
//! - [`decimal`], [`text`]: numerals and lists of strings.
//! - [`address`], [`codec`]: the URL parser and the integer codec, the two
//!   parts that are called and not proved.

pub mod address;
pub mod codec;
pub mod decimal;
pub mod decoder;
pub mod encoder;
pub mod error;
pub mod laws;
pub mod page;
pub mod registry;
pub mod routes;
pub mod text;
pub mod triple;

pub use decoder::resolve_code;
pub use encoder::{encode_url, ShortLink};
pub use error::LinkError;
pub use registry::{Community, Platform, Registry, Template};
pub use routes::{handle_creation, handle_redirect, Reply, UrlPayload};
pub use triple::CodeTriple;
