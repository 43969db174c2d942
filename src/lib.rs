//! Ingestion of signed BLE beacon reports: hex transport decoding, the
//! advertising frame layout, ECDSA authentication of the frame and the
//! construction of position observations.

pub mod hexcode;
pub mod frame;
pub mod signature;
pub mod timestamp;
pub mod ingest;
