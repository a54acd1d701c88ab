//! Driver core for a small BLE robot cube: the binary wire-protocol codec
//! for its GATT characteristics, and the connection-management state machine
//! that keeps cubes connected and correlates requests with responses.

pub mod ble;
pub mod bridge;
pub mod cube;
pub mod decode;
pub mod encode;
pub mod note;
pub mod proto;
pub mod searcher;
pub mod session;
