//! The decoded shapes of the replication stream: the outer message envelope
//! (XLogData change frames, keepalive control frames), the embedded change
//! record, and row tuples, together with their mathematical views and the
//! decode failure taxonomy.

use vstd::prelude::*;
use crate::timestamp::Timestamp;

verus! {

/// Why a buffer failed to decode.
#[derive(Clone, Copy, Debug, PartialEq, Eq, Structural)]
pub enum DecodeError {
    /// The outer tag is neither the XLogData tag nor the keepalive tag.
    UnknownMessageTag,
    /// The embedded record kind is valid protocol but not implemented here
    /// (update/delete/begin/commit/relation), or unrecognized.
    UnsupportedRecordKind,
    /// The tuple-kind marker after an insert record is not the new-tuple marker.
    UnsupportedTupleKind,
    /// A column's type tag is not one of the null / unchanged / text tags.
    UnknownTupleTag,
    /// The declared column count is negative or does not fit the remaining bytes.
    InvalidColumnCount,
    /// A fixed field or a length-prefixed value runs past the end of the buffer,
    /// or a declared length is negative.
    Truncated,
}

/// One column value of a row.
#[derive(Clone, Debug, PartialEq, Eq)]
pub enum TupleData {
    /// The column is SQL null.
    Null,
    /// The value was not transmitted: unchanged out-of-line storage.
    UnchangedToast,
    /// The value in its text-format encoding, copied out of the input buffer.
    Text(Vec<u8>),
}

/// The view of a column value: the text payload as a byte sequence.
pub enum TupleDataView {
    Null,
    UnchangedToast,
    Text(Seq<u8>),
}

impl View for TupleData {
    type V = TupleDataView;

    open spec fn view(&self) -> TupleDataView {
        match self {
            TupleData::Null => TupleDataView::Null,
            TupleData::UnchangedToast => TupleDataView::UnchangedToast,
            TupleData::Text(b) => TupleDataView::Text(b@),
        }
    }
}

/// The views of a sequence of column values, in the same order.
pub open spec fn views_of_cols(cols: Seq<TupleData>) -> Seq<TupleDataView> {
    cols.map_values(|d: TupleData| d@)
}

/// An ordered row of column values, one per column of the source row.
#[derive(Clone, Debug, PartialEq, Eq)]
pub struct Tuple(pub Vec<TupleData>);

impl View for Tuple {
    type V = Seq<TupleDataView>;

    open spec fn view(&self) -> Seq<TupleDataView> {
        views_of_cols(self.0@)
    }
}

impl Tuple {
    /// The column values, in column order.
    pub fn tuple_data(&self) -> (r: &[TupleData])
        ensures
            r@ == self.0@,
            views_of_cols(r@) == self@,
    {
        self.0.as_slice()
    }
}

/// The payload of an insert record: the target relation and the new row.
#[derive(Clone, Debug, PartialEq, Eq)]
pub struct InsertBody {
    pub rel_id: u32,
    pub tuple: Tuple,
}

/// The view of an insert record.
pub struct InsertBodyView {
    pub rel_id: u32,
    pub tuple: Seq<TupleDataView>,
}

impl View for InsertBody {
    type V = InsertBodyView;

    open spec fn view(&self) -> InsertBodyView {
        InsertBodyView { rel_id: self.rel_id, tuple: self.tuple@ }
    }
}

impl InsertBody {
    /// The identifier of the relation the row belongs to.
    pub fn rel_id(&self) -> (r: u32)
        ensures
            r == self@.rel_id,
    {
        self.rel_id
    }

    /// The decoded row.
    pub fn tuple(&self) -> (r: &Tuple)
        ensures
            r@ == self@.tuple,
    {
        &self.tuple
    }
}

/// A change record embedded in an XLogData frame. Open for extension: further
/// record kinds (update, delete, begin, commit, relation metadata) may be
/// added, so consumers must not match exhaustively.
#[non_exhaustive]
#[derive(Clone, Debug, PartialEq, Eq)]
pub enum InnerData {
    Insert(InsertBody),
}

/// The view of an embedded change record.
pub enum InnerDataView {
    Insert(InsertBodyView),
}

impl View for InnerData {
    type V = InnerDataView;

    open spec fn view(&self) -> InnerDataView {
        match self {
            InnerData::Insert(b) => InnerDataView::Insert(b@),
        }
    }
}

/// An XLogData frame: a span of the durable change log and the record it carries.
#[derive(Clone, Debug, PartialEq, Eq)]
pub struct XLogDataBody {
    pub wal_start: u64,
    pub wal_end: u64,
    pub timestamp: Timestamp,
    pub data: InnerData,
}

/// The view of an XLogData frame; the timestamp as microseconds since the
/// Unix epoch.
pub struct XLogDataBodyView {
    pub wal_start: u64,
    pub wal_end: u64,
    pub timestamp: int,
    pub data: InnerDataView,
}

impl View for XLogDataBody {
    type V = XLogDataBodyView;

    open spec fn view(&self) -> XLogDataBodyView {
        XLogDataBodyView {
            wal_start: self.wal_start,
            wal_end: self.wal_end,
            timestamp: self.timestamp.micros as int,
            data: self.data@,
        }
    }
}

impl XLogDataBody {
    /// The log position where this frame starts.
    pub fn wal_start(&self) -> (r: u64)
        ensures
            r == self@.wal_start,
    {
        self.wal_start
    }

    /// The log position where this frame ends.
    pub fn wal_end(&self) -> (r: u64)
        ensures
            r == self@.wal_end,
    {
        self.wal_end
    }

    /// When the frame was sent, as an absolute timestamp.
    pub fn timestamp(&self) -> (r: Timestamp)
        ensures
            r.micros == self@.timestamp,
    {
        self.timestamp
    }

    /// The change record carried by this frame.
    pub fn data(&self) -> (r: &InnerData)
        ensures
            r@ == self@.data,
    {
        &self.data
    }

    /// Consume the frame, keeping only the change record.
    pub fn into_data(self) -> (r: InnerData)
        ensures
            r@ == self@.data,
    {
        self.data
    }
}

/// A keepalive control frame: the source's current log end, when it was sent,
/// and whether a reply is requested (0 or 1 on the wire, passed through).
#[derive(Clone, Debug, PartialEq, Eq)]
pub struct PrimaryKeepAliveBody {
    pub wal_end: u64,
    pub timestamp: Timestamp,
    pub reply: u8,
}

/// The view of a keepalive frame; the timestamp as microseconds since the
/// Unix epoch.
pub struct PrimaryKeepAliveBodyView {
    pub wal_end: u64,
    pub timestamp: int,
    pub reply: u8,
}

impl View for PrimaryKeepAliveBody {
    type V = PrimaryKeepAliveBodyView;

    open spec fn view(&self) -> PrimaryKeepAliveBodyView {
        PrimaryKeepAliveBodyView {
            wal_end: self.wal_end,
            timestamp: self.timestamp.micros as int,
            reply: self.reply,
        }
    }
}

impl PrimaryKeepAliveBody {
    /// The source's current end-of-log position.
    pub fn wal_end(&self) -> (r: u64)
        ensures
            r == self@.wal_end,
    {
        self.wal_end
    }

    /// When the keepalive was sent, as an absolute timestamp.
    pub fn timestamp(&self) -> (r: Timestamp)
        ensures
            r.micros == self@.timestamp,
    {
        self.timestamp
    }

    /// Whether the source asks for an acknowledgment reply.
    pub fn reply(&self) -> (r: u8)
        ensures
            r == self@.reply,
    {
        self.reply
    }
}

/// One decoded unit of the replication stream. Open for extension: further
/// message kinds may be added, so consumers must not match exhaustively.
#[non_exhaustive]
#[derive(Clone, Debug, PartialEq, Eq)]
pub enum ReplicationMessage {
    XLogData(XLogDataBody),
    PrimaryKeepAlive(PrimaryKeepAliveBody),
}

/// The view of a decoded message.
pub enum ReplicationMessageView {
    XLogData(XLogDataBodyView),
    PrimaryKeepAlive(PrimaryKeepAliveBodyView),
}

impl View for ReplicationMessage {
    type V = ReplicationMessageView;

    open spec fn view(&self) -> ReplicationMessageView {
        match self {
            ReplicationMessage::XLogData(b) => ReplicationMessageView::XLogData(b@),
            ReplicationMessage::PrimaryKeepAlive(b) => {
                ReplicationMessageView::PrimaryKeepAlive(b@)
            }
        }
    }
}

} // verus!
