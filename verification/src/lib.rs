//! A UDP load balancer's fast path: it classifies one raw packet, looks its
//! destination port up in a table of rotating backend ports, rewrites the port
//! in place and advances the rotation.

pub mod backend;
pub mod packet;
pub mod table;
pub mod redirect;

pub use backend::BackendPorts;
pub use redirect::load_balancer;

