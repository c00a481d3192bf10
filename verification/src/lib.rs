//! Verified core of a WebView2 binding: status codes, wide strings,
//! reference-count accounting, callback adapters and the protocols that
//! drive the native interfaces.
//!
//! Nothing here touches native code. Each operation of the binding is cut
//! where it crosses the boundary: what is decided before a native call and
//! what is made of its answer stands here, with a contract; the call itself
//! belongs to the caller.

pub mod builder;
pub mod callback;
pub mod handle;
pub mod headers;
pub mod loader;
pub mod objects;
pub mod options;
pub mod property;
pub mod status;
pub mod stream;
pub mod wide;

pub use builder::EnvironmentBuilder;
pub use headers::{HttpHeadersCollectionIterator, HttpRequestHeaders, HttpResponseHeaders};
pub use objects::{Controller, Environment, Settings, WebView};
pub use status::{check_hresult, to_hresult, Error};
pub use stream::Stream;
