pub mod msg_read;
pub mod tcp_client_event_handler;

pub use self::tcp_client_event_handler::{TcpClientAction, TcpClientEventHandler};
