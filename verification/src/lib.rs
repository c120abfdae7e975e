//! A local SOCKS5 forward proxy core that reshapes client traffic so that in-path
//! inspection fails to correlate a flow with its server name: the SNI locator, the
//! pattern engine, the router, the desynchronisation planner, the SOCKS5 and UDP
//! framing, and the bookkeeping around them. Socket work is left to the caller: the
//! library computes what is to be sent, and how. Beside them stand the builders
//! of hand-made packets: IPv4 and TCP headers, the TLS 1.2 ClientHello, and the
//! splitter that cuts a packet in parts with fakes queued behind them.

pub mod addr;
pub mod blockmarker;
pub mod bytes;
pub mod config;
pub mod desync;
pub mod doh;
pub mod fake;
pub mod filter;
pub mod ip_utils;
pub mod ipv4;
pub mod ops;
pub mod pattern;
pub mod pipe;
pub mod random;
pub mod router;
pub mod scan;
pub mod segment;
pub mod sni;
pub mod socket;
pub mod socks;
pub mod split;
pub mod strategy;
pub mod tamper;
pub mod tcp;
pub mod text;
pub mod tls12;
pub mod udp;
