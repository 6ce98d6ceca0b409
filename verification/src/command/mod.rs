//! The command lines that set up emulated devices: containers, network
//! namespaces, veth pairs, bridges and vxlan ports. Each function here says
//! which program runs with which arguments; running them is left to the
//! caller.

pub mod docker;
pub mod docker_cmd;
pub mod ip;
pub mod ip_cmd;
pub mod system;
pub mod system_utils;
pub mod utils;

pub use ip_cmd::AddBrInNs;
pub use ip_cmd::AddNs;
pub use ip_cmd::AddVxlanPort;
pub use ip_cmd::AssignPortNs;
pub use ip_cmd::AttachPortToBrInNs;
pub use ip_cmd::UpPortInNs;
pub use ip_cmd::VethPair;
