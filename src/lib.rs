//! Message authentication, unified line diffs and text reversal, each a pure
//! function of its inputs with a stated contract.
pub mod diff;
pub mod mac;
pub mod reverse;

pub use diff::unified_diff;
pub use mac::{hmac_sha256_base64, MacError};
pub use reverse::{reverse_text, MyBridge, ReverseReply, ReverseRequest};
