//! Handshake, relay and tunnel-dialing logic of Warpgate's RabbitMQ and raw
//! TCP protocol servers and of its SSH and Kubernetes tunnel clients.
pub mod client;
pub mod frames;
pub mod idle;
pub mod kubernetes;
pub mod relay;
pub mod sasl;
pub mod session;
pub mod span;
pub mod ssh_auth;
pub mod ssh_chain;
pub mod ssh_config;
pub mod tcp;
pub mod text;
pub mod tune;
pub mod wire;
