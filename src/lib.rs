//! Client-side logic of the Minecraft Java Edition server list ping:
//! where to connect, what to send, which replies to accept, and how the
//! outcome is reported. The network, DNS and packet codec live with the
//! caller, which feeds what it observed into the functions here.

pub mod error;
pub mod resolve;
pub mod packet;
pub mod exchange;

pub use error::Error;
pub use exchange::JavaResult;
