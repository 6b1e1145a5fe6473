//! Verified core of the OpenHarmony ability bridge: the decisions, texts and
//! bookkeeping behind the account, opener, clipboard and window bridges and the
//! WebView callback registry. The N-API calls themselves are made by the host.

pub mod text;
pub mod callbacks;
pub mod handoff;
pub mod bridge;
pub mod account;
pub mod opener;
pub mod clipboard;
pub mod helper;
pub mod window;
pub mod laws;
