pub mod headers;
pub mod message;
pub mod tokens;
pub mod uri;

pub use self::headers::{Header, HeaderKind, NamedHeader, SubscriptionState, ViaHeader};
pub use self::message::SipMessage;
pub use self::tokens::{Method, Transport, Version};
pub use self::uri::{Domain, Uri, UriAuth, UriParam, UriSchema};
