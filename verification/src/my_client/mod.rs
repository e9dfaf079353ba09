//! The protocol logic of the server for one peer.
//!
//! A client receives the messages of its own peer and the messages that
//! other clients route to it. It answers as a registrar, passes call
//! requests on to the client of the callee, and, as a back-to-back user
//! agent, gives each leg of a call identifiers of its own. It acts only
//! through the events that it returns.

pub mod laws;
pub mod logic;
pub mod model;

pub use self::logic::{fresh_view, FreshIds, MyClient};
pub use self::model::{
    shared, FreshIdsView, MyClientView, Outcome, Routed, SharedView,
};
