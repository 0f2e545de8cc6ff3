//! Decoder for the logical streaming-replication wire format: length-prefixed,
//! tag-discriminated binary messages (XLogData change frames and keepalive
//! control frames), with nested tuple payloads and protocol timestamps.

pub mod codec;
pub mod models;
pub mod timestamp;
pub mod wire;

pub use models::{
    DecodeError, InnerData, InnerDataView, InsertBody, InsertBodyView, PrimaryKeepAliveBody,
    PrimaryKeepAliveBodyView, ReplicationMessage, ReplicationMessageView, Tuple, TupleData,
    TupleDataView, XLogDataBody, XLogDataBodyView,
};
pub use timestamp::{Timestamp, timestamp_from, PG_EPOCH_MICROS};
