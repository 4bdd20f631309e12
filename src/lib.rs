//! Turns configuration strings and a payload into a QR symbol rendered in
//! one of several encodings: the request resolver, the version and
//! error-correction policy, and the multi-format renderer.
pub mod help;
pub mod laws;
pub mod policy;
pub mod render;
pub mod request;
pub mod service;
pub mod symbol;
pub mod text;

pub use help::txt_to_html;
pub use policy::{Construction, SymbolVersion};
pub use render::GenerateError;
pub use request::{ConfigValues, EcLevel, Field, FieldError, Format, Generator, VersionType};
pub use service::{Rejection, RenderedArtifact, Reply, Service};
pub use symbol::{EncodingError, Symbol};
