//! Connectivity supervision for a single-radio device that joins a Wi-Fi
//! network as a station and then brings up a BLE host on the same radio.
//!
//! Every decision is a verified function from plain values to plain values;
//! the surrounding program performs the radio, timer and network calls.

pub mod credentials;
pub mod supervisor;
pub mod gate;
pub mod resources;
pub mod radio;
