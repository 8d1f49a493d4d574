//! Core logic of a GNOME Quick Share client: Wi-Fi Direct capability and
//! peer discovery over NetworkManager, the mDNS announcement policy, and the
//! decisions the front end takes on transfers and Wi-Fi Direct sessions.

pub mod text;
pub mod wifi_direct;
pub mod numbers;
pub mod endpoint;
pub mod gdbus;
pub mod neighbors;
pub mod discovery;
pub mod mdns;
pub mod manager;
pub mod frontend;
pub mod transfers;
pub mod paths;
pub mod devices;
pub mod ids;
pub mod service;
