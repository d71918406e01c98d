//! RAOP / AirPlay audio sender core: packet framing, RTSP messages,
//! session state machines and tray-side state, with Verus contracts.

pub mod bytes;
pub mod text;
pub mod packet;
pub mod error;
pub mod model;
pub mod codec;
pub mod rtsp;
pub mod timing;
pub mod sink;
pub mod session;
pub mod tlv;
pub mod pairing;
pub mod ui_state;
pub mod config;
pub mod controller;
pub mod tray;
pub mod crypto;
pub mod pair_verify;
pub mod modern;
pub mod plist_body;
pub mod legacy;
pub mod worker;
pub mod reader;
pub mod menu;
pub mod tray_menu;
