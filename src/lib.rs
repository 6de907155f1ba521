//! Decision logic of a server-side HTTP/2 connection driver: the connection
//! state machine, the per-stream exchange lifecycle and its FIFO pruning,
//! handler dispatch, body flow control and replay of already-read bytes.
pub mod bytes_spec;
pub mod prefix;
pub mod payload;
pub mod entry;
pub mod dispatch;
pub mod connection;
