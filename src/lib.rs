//! Acceptance and dispatch core of a peer rendezvous service: bind-address
//! resolution, protocol sniffing of new connections, the datagram receive
//! loops and the startup sequence, each as verified decisions over plain values.

pub mod address;
pub mod dispatch;
pub mod udp;
pub mod server;

