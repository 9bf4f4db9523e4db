//! A client for a three-tier game protocol: byte codecs, a stream framer that cuts
//! a TCP byte stream into packets by a per-phase length table, and the decisions
//! that each phase takes on the packets it receives.
pub mod bytes;
pub mod input_message;
pub mod network_message;
pub mod move_data;
pub mod helper;
pub mod framer;
pub mod enums;
pub mod session;
pub mod login;
pub mod character_list;
pub mod game_packets;
pub mod game;
pub mod connection;
