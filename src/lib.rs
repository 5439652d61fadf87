//! Client side of a frame-multiplexed bot protocol: frames, the table of
//! pending requests, the routing of inbound frames and the typed requests.
pub mod msg;
pub mod frame;
pub mod table;
pub mod dispatch;
pub mod api;
