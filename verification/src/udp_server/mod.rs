pub mod udp_client_event_handler;
pub mod udp_socket_reader;
pub mod udp_socket_writer;

pub use self::udp_client_event_handler::{UdpClientAction, UdpClientEventHandler};
pub use self::udp_socket_reader::{UdpReaderAction, UdpSocketReader};
pub use self::udp_socket_writer::UdpSocketWriterMessage;
