//! The requests that the database worker serves.

pub mod create_emu_net;
pub mod init;
pub mod init_emu_net;
pub mod set_emu_net;

pub use create_emu_net::CreateEmuNet;
pub use init::Init;
pub use set_emu_net::SetEmuNet;
