//! Reverse TCP tunnelling: the control protocol, the server's registry of
//! clients, tunnels and connections, and the decisions both peers take on
//! every control frame.
//!
//! Nothing here touches a socket.  The program around this library accepts,
//! dials, reads and writes; it hands each event to the functions below and
//! carries out what they return.
//!
//! - [`protocol`] holds the control messages and the records they carry,
//!   [`frame`] the binary form of stream payloads and [`base64_bytes`]
//!   their text form.
//! - [`registry`] describes the server's registry as a mathematical object
//!   and [`laws`] states what its steps guarantee; [`manager`] is the
//!   registry itself, kept in the concurrent maps of [`table`].
//! - [`handler`] decides what the server does with each frame and what its
//!   admin surface answers, [`client`] what the client does, and
//!   [`startup`] what a server starts with.
//! - [`text`] and [`sources`] are the groundwork: text as sequences of
//!   characters, and what comes from outside, fresh ids and the time.

pub mod text;
pub mod sources;
pub mod protocol;
pub mod base64_bytes;
pub mod frame;
pub mod registry;
pub mod laws;
pub mod table;
pub mod manager;
pub mod handler;
pub mod client;
pub mod startup;
