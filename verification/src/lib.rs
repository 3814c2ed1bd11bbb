//! Runtime bridge between locally supplied web content and host-side logic:
//! resolves which content source feeds the native window, builds the session
//! plan around it, and routes JSON command messages between the embedded
//! content and the host through a dispatcher with a defined fallback chain.

pub mod content;
pub mod dispatch;
pub mod port;
pub mod server;
pub mod session;
pub mod strutil;
