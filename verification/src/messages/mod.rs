//! Messages exchanged with the data server.
pub mod data_server_messaging;
pub mod registry_messages;
