//! Decoding of the options region of DHCP/BOOTP messages.
//!
//! A region is a stream of tag-length-value records. [`parse`] turns it into
//! the options it holds, in wire order: records it does not know, or whose
//! value has the wrong shape, are skipped; a record cut short ends the scan.
//! The value of Relay Agent Information (option 82) is itself such a stream,
//! over its own catalog of sub-options.
pub mod framing;
pub mod option82;
pub mod options;
pub mod parse;
pub mod wire;

pub use option82::RelayAgentInformationSubOption;
pub use options::{DhcpMessageTypes, DhcpOption, NetBiosNodeTypes, OptionOverloadTypes};
pub use parse::{dhcp_option, parse, relay_agent_information_option_rfc3046};
pub use wire::Ipv4Address;
