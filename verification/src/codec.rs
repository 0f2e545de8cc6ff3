//! The decoders. Spec-level parsers pin down, byte for byte, what every
//! buffer decodes to (or with which error it fails); the executable decoders
//! are proved to return exactly that. A keepalive serializer and the
//! round-trip and determinism laws close the circle.

use vstd::prelude::*;
use crate::models::{
    views_of_cols, DecodeError, InnerData, InnerDataView, InsertBody, InsertBodyView,
    PrimaryKeepAliveBody, PrimaryKeepAliveBodyView, ReplicationMessage, ReplicationMessageView,
    Tuple, TupleData, TupleDataView, XLogDataBody, XLogDataBodyView,
};
use crate::timestamp::{spec_timestamp_from, timestamp_from, PG_EPOCH_MICROS};
use crate::wire::{
    be_bytes_u64, be_u16, be_u32, be_u64, be_u64_vec, bits_from_i64, decode_i64, encode_i64,
    i64_from_bits, lemma_be_bytes_u64_roundtrip, lemma_i64_bits_roundtrip, read_be_u16,
    read_be_u32, read_be_u64,
};

verus! {

/// Outer tag of an XLogData frame (ASCII 'w').
pub const TAG_XLOG_DATA: u8 = 0x77;

/// Outer tag of a keepalive frame (ASCII 'k').
pub const TAG_KEEPALIVE: u8 = 0x6b;

/// Record-kind tag of an insert record (ASCII 'I').
pub const TAG_INSERT: u8 = 0x49;

/// Marker introducing the new row of an insert record (ASCII 'N').
pub const MARKER_NEW_TUPLE: u8 = 0x4e;

/// Column tag of a null value (ASCII 'n').
pub const TAG_COL_NULL: u8 = 0x6e;

/// Column tag of an unchanged out-of-line value (ASCII 'u').
pub const TAG_COL_TOAST: u8 = 0x75;

/// Column tag of an inline text value (ASCII 't').
pub const TAG_COL_TEXT: u8 = 0x74;


/// What one column value starting at the type tag at `i` parses to, and where
/// the next field starts: the null tag and the unchanged tag consume one byte;
/// the text tag is followed by a 4-byte big-endian length (its sign bit set or
/// the payload running past the buffer is a truncation failure) and that many
/// payload bytes; any other tag is an unknown-tuple-tag failure.
pub open spec fn spec_parse_tuple_data(s: Seq<u8>, i: int) -> Result<
    (TupleDataView, int),
    DecodeError,
>
    recommends
        0 <= i <= s.len(),
{
    if i + 1 > s.len() {
        Err(DecodeError::Truncated)
    } else if s[i] == TAG_COL_NULL {
        Ok((TupleDataView::Null, i + 1))
    } else if s[i] == TAG_COL_TOAST {
        Ok((TupleDataView::UnchangedToast, i + 1))
    } else if s[i] == TAG_COL_TEXT {
        if i + 5 > s.len() {
            Err(DecodeError::Truncated)
        } else if be_u32(s, i + 1) >= 0x8000_0000 {
            Err(DecodeError::Truncated)
        } else if i + 5 + be_u32(s, i + 1) > s.len() {
            Err(DecodeError::Truncated)
        } else {
            Ok(
                (
                    TupleDataView::Text(s.subrange(i + 5, i + 5 + be_u32(s, i + 1))),
                    i + 5 + be_u32(s, i + 1),
                ),
            )
        }
    } else {
        Err(DecodeError::UnknownTupleTag)
    }
}

/// What `n` consecutive column values starting at `i` parse to, in order, and
/// where the next field starts; the first failing column fails the whole
/// parse.
pub open spec fn spec_parse_cols(s: Seq<u8>, i: int, n: nat) -> Result<
    (Seq<TupleDataView>, int),
    DecodeError,
>
    recommends
        0 <= i <= s.len(),
    decreases n,
{
    if n == 0 {
        Ok((Seq::empty(), i))
    } else {
        match spec_parse_tuple_data(s, i) {
            Ok((d, j)) => match spec_parse_cols(s, j, (n - 1) as nat) {
                Ok((rest, end)) => Ok((seq![d] + rest, end)),
                Err(e) => Err(e),
            },
            Err(e) => Err(e),
        }
    }
}

/// What a row starting at the 2-byte big-endian column count at `i` parses
/// to: a count with its sign bit set, or larger than the remaining bytes (a
/// column takes at least one byte), is an invalid-column-count failure; then
/// exactly that many column values follow.
pub open spec fn spec_parse_tuple(s: Seq<u8>, i: int) -> Result<
    (Seq<TupleDataView>, int),
    DecodeError,
>
    recommends
        0 <= i <= s.len(),
{
    if i + 2 > s.len() {
        Err(DecodeError::Truncated)
    } else if be_u16(s, i) >= 0x8000 {
        Err(DecodeError::InvalidColumnCount)
    } else if i + 2 + be_u16(s, i) > s.len() {
        Err(DecodeError::InvalidColumnCount)
    } else {
        spec_parse_cols(s, i + 2, be_u16(s, i) as nat)
    }
}

/// What the change record starting at the record-kind tag at `i` parses to.
/// Only the insert kind is implemented: a 4-byte big-endian relation id, the
/// new-tuple marker (anything else is an unsupported-tuple-kind failure) and
/// a row; any other kind tag — including valid but unimplemented protocol
/// kinds — is an unsupported-record-kind failure. Bytes after the row are
/// ignored.
pub open spec fn spec_parse_inner(s: Seq<u8>, i: int) -> Result<InnerDataView, DecodeError>
    recommends
        0 <= i <= s.len(),
{
    if i + 1 > s.len() {
        Err(DecodeError::Truncated)
    } else if s[i] != TAG_INSERT {
        Err(DecodeError::UnsupportedRecordKind)
    } else if i + 6 > s.len() {
        Err(DecodeError::Truncated)
    } else if s[i + 5] != MARKER_NEW_TUPLE {
        Err(DecodeError::UnsupportedTupleKind)
    } else {
        match spec_parse_tuple(s, i + 6) {
            Ok((cols, _end)) => Ok(
                InnerDataView::Insert(InsertBodyView { rel_id: be_u32(s, i + 1), tuple: cols }),
            ),
            Err(e) => Err(e),
        }
    }
}

/// What an XLogData frame body starting at `i` (just after the outer tag)
/// parses to: two 8-byte big-endian log positions, an 8-byte signed
/// microsecond offset (converted to an absolute timestamp) and an embedded
/// change record.
pub open spec fn spec_parse_xlog(s: Seq<u8>, i: int) -> Result<XLogDataBodyView, DecodeError>
    recommends
        0 <= i <= s.len(),
{
    if i + 24 > s.len() {
        Err(DecodeError::Truncated)
    } else {
        match spec_parse_inner(s, i + 24) {
            Ok(data) => Ok(
                XLogDataBodyView {
                    wal_start: be_u64(s, i),
                    wal_end: be_u64(s, i + 8),
                    timestamp: spec_timestamp_from(i64_from_bits(be_u64(s, i + 16))),
                    data,
                },
            ),
            Err(e) => Err(e),
        }
    }
}

/// What one complete message buffer decodes to. The XLogData tag is followed
/// by an XLogData frame body; the keepalive tag by an 8-byte big-endian log
/// position, a signed microsecond offset and a reply flag, further bytes
/// ignored; any other first byte is an unknown-message-tag failure, and an
/// empty or short buffer a truncation failure.
pub open spec fn spec_decode_message(s: Seq<u8>) -> Result<ReplicationMessageView, DecodeError> {
    if s.len() < 1 {
        Err(DecodeError::Truncated)
    } else if s[0] == TAG_XLOG_DATA {
        match spec_parse_xlog(s, 1) {
            Ok(body) => Ok(ReplicationMessageView::XLogData(body)),
            Err(e) => Err(e),
        }
    } else if s[0] == TAG_KEEPALIVE {
        if s.len() < 18 {
            Err(DecodeError::Truncated)
        } else {
            Ok(
                ReplicationMessageView::PrimaryKeepAlive(
                    PrimaryKeepAliveBodyView {
                        wal_end: be_u64(s, 1),
                        timestamp: spec_timestamp_from(i64_from_bits(be_u64(s, 9))),
                        reply: s[17],
                    },
                ),
            )
        }
    } else {
        Err(DecodeError::UnknownMessageTag)
    }
}

impl TupleData {
    /// Decode one column value, starting at the 1-byte type tag at `pos`;
    /// on success also return where the next field starts.
    pub fn decode(s: &Vec<u8>, pos: usize) -> (r: Result<(TupleData, usize), DecodeError>)
        requires
            pos <= s@.len(),
        ensures
            (match r {
                Ok(p) => spec_parse_tuple_data(s@, pos as int) == Ok::<
                    (TupleDataView, int),
                    DecodeError,
                >((p.0@, p.1 as int)) && pos < p.1 <= s@.len(),
                Err(e) => spec_parse_tuple_data(s@, pos as int) == Err::<
                    (TupleDataView, int),
                    DecodeError,
                >(e),
            }),
    {
        let len = s.len();
        if pos >= len {
            return Err(DecodeError::Truncated);
        }
        let tag = s[pos];
        if tag == TAG_COL_NULL {
            Ok((TupleData::Null, pos + 1))
        } else if tag == TAG_COL_TOAST {
            Ok((TupleData::UnchangedToast, pos + 1))
        } else if tag == TAG_COL_TEXT {
            if len - pos < 5 {
                return Err(DecodeError::Truncated);
            }
            let n = read_be_u32(s, pos + 1);
            if n >= 0x8000_0000 {
                return Err(DecodeError::Truncated);
            }
            let tlen = n as usize;
            if tlen > len - (pos + 5) {
                return Err(DecodeError::Truncated);
            }
            let mut text: Vec<u8> = Vec::new();
            let mut k: usize = 0;
            while k < tlen
                invariant
                    k <= tlen,
                    len == s@.len(),
                    pos + 5 + tlen <= len,
                    text@ == s@.subrange(pos + 5, pos + 5 + k),
                decreases tlen - k,
            {
                text.push(s[pos + 5 + k]);
                assert(text@ =~= s@.subrange(pos + 5, pos + 5 + (k + 1)));
                k = k + 1;
            }
            Ok((TupleData::Text(text), pos + 5 + tlen))
        } else {
            Err(DecodeError::UnknownTupleTag)
        }
    }
}

impl Tuple {
    /// Decode a row, starting at the 2-byte big-endian column count at `pos`;
    /// on success also return where the next field starts.
    pub fn decode(s: &Vec<u8>, pos: usize) -> (r: Result<(Tuple, usize), DecodeError>)
        requires
            pos <= s@.len(),
        ensures
            (match r {
                Ok(p) => spec_parse_tuple(s@, pos as int) == Ok::<
                    (Seq<TupleDataView>, int),
                    DecodeError,
                >((p.0@, p.1 as int)) && pos <= p.1 <= s@.len(),
                Err(e) => spec_parse_tuple(s@, pos as int) == Err::<
                    (Seq<TupleDataView>, int),
                    DecodeError,
                >(e),
            }),
    {
        let len = s.len();
        if len - pos < 2 {
            return Err(DecodeError::Truncated);
        }
        let n = read_be_u16(s, pos);
        if n >= 0x8000 {
            return Err(DecodeError::InvalidColumnCount);
        }
        let count = n as usize;
        if count > len - (pos + 2) {
            return Err(DecodeError::InvalidColumnCount);
        }
        let mut cols: Vec<TupleData> = Vec::new();
        let mut cur: usize = pos + 2;
        let mut k: usize = 0;
        proof {
            match spec_parse_cols(s@, cur as int, (count - k) as nat) {
                Ok(p) => {
                    assert(views_of_cols(cols@) + p.0 =~= p.0);
                },
                Err(_) => {},
            }
        }
        while k < count
            invariant
                k <= count,
                pos + 2 <= cur <= s@.len(),
                spec_parse_tuple(s@, pos as int) == (match spec_parse_cols(
                    s@,
                    cur as int,
                    (count - k) as nat,
                ) {
                    Ok(p) => Ok::<(Seq<TupleDataView>, int), DecodeError>(
                        (views_of_cols(cols@) + p.0, p.1),
                    ),
                    Err(e) => Err::<(Seq<TupleDataView>, int), DecodeError>(e),
                }),
            decreases count - k,
        {
            match TupleData::decode(s, cur) {
                Ok((d, next)) => {
                    proof {
                        let ghost m: nat = (count - k) as nat;
                        assert(spec_parse_cols(s@, cur as int, m) == (
                        match spec_parse_cols(s@, next as int, (m - 1) as nat) {
                            Ok(p) => Ok::<(Seq<TupleDataView>, int), DecodeError>(
                                (seq![d@] + p.0, p.1),
                            ),
                            Err(e) => Err::<(Seq<TupleDataView>, int), DecodeError>(e),
                        }));
                        assert(views_of_cols(cols@.push(d)) =~= views_of_cols(cols@) + seq![d@]);
                        match spec_parse_cols(s@, next as int, (m - 1) as nat) {
                            Ok(p) => {
                                assert((views_of_cols(cols@) + seq![d@]) + p.0 =~= views_of_cols(
                                    cols@,
                                ) + (seq![d@] + p.0));
                            },
                            Err(_) => {},
                        }
                    }
                    cols.push(d);
                    cur = next;
                    k = k + 1;
                },
                Err(e) => {
                    return Err(e);
                },
            }
        }
        proof {
            match spec_parse_cols(s@, cur as int, 0) {
                Ok(p) => {
                    assert(views_of_cols(cols@) + p.0 =~= views_of_cols(cols@));
                },
                Err(_) => {},
            }
        }
        Ok((Tuple(cols), cur))
    }
}

impl InnerData {
    /// Decode the change record starting at the record-kind tag at `pos`;
    /// bytes after the record are ignored.
    pub fn decode(s: &Vec<u8>, pos: usize) -> (r: Result<InnerData, DecodeError>)
        requires
            pos <= s@.len(),
        ensures
            (match r {
                Ok(d) => spec_parse_inner(s@, pos as int) == Ok::<InnerDataView, DecodeError>(d@),
                Err(e) => spec_parse_inner(s@, pos as int) == Err::<InnerDataView, DecodeError>(e),
            }),
    {
        let len = s.len();
        if pos >= len {
            return Err(DecodeError::Truncated);
        }
        let tag = s[pos];
        if tag != TAG_INSERT {
            return Err(DecodeError::UnsupportedRecordKind);
        }
        if len - pos < 6 {
            return Err(DecodeError::Truncated);
        }
        let rel_id = read_be_u32(s, pos + 1);
        let marker = s[pos + 5];
        if marker != MARKER_NEW_TUPLE {
            return Err(DecodeError::UnsupportedTupleKind);
        }
        match Tuple::decode(s, pos + 6) {
            Ok((tuple, _next)) => Ok(InnerData::Insert(InsertBody { rel_id, tuple })),
            Err(e) => Err(e),
        }
    }
}

impl XLogDataBody {
    /// Decode an XLogData frame body, starting just after the outer tag at
    /// `pos`; bytes after the embedded record are ignored.
    pub fn decode(s: &Vec<u8>, pos: usize) -> (r: Result<XLogDataBody, DecodeError>)
        requires
            pos <= s@.len(),
        ensures
            (match r {
                Ok(b) => spec_parse_xlog(s@, pos as int) == Ok::<XLogDataBodyView, DecodeError>(
                    b@,
                ),
                Err(e) => spec_parse_xlog(s@, pos as int) == Err::<XLogDataBodyView, DecodeError>(
                    e,
                ),
            }),
    {
        let len = s.len();
        if len - pos < 24 {
            return Err(DecodeError::Truncated);
        }
        let wal_start = read_be_u64(s, pos);
        let wal_end = read_be_u64(s, pos + 8);
        let ts = decode_i64(read_be_u64(s, pos + 16));
        let timestamp = timestamp_from(ts);
        match InnerData::decode(s, pos + 24) {
            Ok(data) => Ok(XLogDataBody { wal_start, wal_end, timestamp, data }),
            Err(e) => Err(e),
        }
    }
}

impl ReplicationMessage {
    /// Decode one complete message buffer into its typed representation, or
    /// say exactly why it is malformed. Purely a function of the bytes: no
    /// state is kept between calls.
    pub fn decode(buf: &Vec<u8>) -> (r: Result<ReplicationMessage, DecodeError>)
        ensures
            (match r {
                Ok(m) => spec_decode_message(buf@) == Ok::<
                    ReplicationMessageView,
                    DecodeError,
                >(m@),
                Err(e) => spec_decode_message(buf@) == Err::<
                    ReplicationMessageView,
                    DecodeError,
                >(e),
            }),
    {
        let len = buf.len();
        if len < 1 {
            return Err(DecodeError::Truncated);
        }
        let tag = buf[0];
        if tag == TAG_XLOG_DATA {
            match XLogDataBody::decode(buf, 1) {
                Ok(body) => Ok(ReplicationMessage::XLogData(body)),
                Err(e) => Err(e),
            }
        } else if tag == TAG_KEEPALIVE {
            if len < 18 {
                return Err(DecodeError::Truncated);
            }
            let wal_end = read_be_u64(buf, 1);
            let ts = decode_i64(read_be_u64(buf, 9));
            let timestamp = timestamp_from(ts);
            let reply = buf[17];
            Ok(
                ReplicationMessage::PrimaryKeepAlive(
                    PrimaryKeepAliveBody { wal_end, timestamp, reply },
                ),
            )
        } else {
            Err(DecodeError::UnknownMessageTag)
        }
    }
}

/// Whether a keepalive's timestamp lies within a signed 64-bit microsecond
/// offset of the protocol epoch — the range the wire format can carry. Every
/// decoded keepalive satisfies this.
pub open spec fn keepalive_encodable(k: PrimaryKeepAliveBodyView) -> bool {
    i64::MIN <= k.timestamp - PG_EPOCH_MICROS <= i64::MAX
}

/// The wire encoding of a keepalive frame: the keepalive tag, the 8-byte
/// big-endian log end, the 8-byte big-endian signed microsecond offset from
/// the protocol epoch, and the reply flag.
pub open spec fn spec_encode_keepalive(k: PrimaryKeepAliveBodyView) -> Seq<u8> {
    seq![TAG_KEEPALIVE] + be_bytes_u64(k.wal_end) + be_bytes_u64(
        bits_from_i64((k.timestamp - PG_EPOCH_MICROS) as i64),
    ) + seq![k.reply]
}

impl PrimaryKeepAliveBody {
    /// Serialize back to the wire format.
    pub fn encode(&self) -> (r: Vec<u8>)
        requires
            keepalive_encodable(self@),
        ensures
            r@ == spec_encode_keepalive(self@),
    {
        let mut out: Vec<u8> = Vec::new();
        out.push(TAG_KEEPALIVE);
        let mut wal = be_u64_vec(self.wal_end);
        out.append(&mut wal);
        let off: i64 = (self.timestamp.micros - PG_EPOCH_MICROS) as i64;
        let mut ts = be_u64_vec(encode_i64(off));
        out.append(&mut ts);
        out.push(self.reply);
        assert(out@ =~= spec_encode_keepalive(self@));
        out
    }
}

/// Law: decoding a complete 18-byte keepalive buffer and re-encoding the
/// decoded fields reproduces the original bytes exactly.
pub proof fn lemma_keepalive_round_trip(s: Seq<u8>, k: PrimaryKeepAliveBodyView)
    requires
        s.len() == 18,
        spec_decode_message(s) == Ok::<ReplicationMessageView, DecodeError>(
            ReplicationMessageView::PrimaryKeepAlive(k),
        ),
    ensures
        keepalive_encodable(k),
        spec_encode_keepalive(k) == s,
{
    let n_ts = be_u64(s, 9);
    let ts = i64_from_bits(n_ts);
    assert(k.timestamp == spec_timestamp_from(ts));
    assert(spec_timestamp_from(ts) == PG_EPOCH_MICROS + ts);
    assert((k.timestamp - PG_EPOCH_MICROS) as i64 == ts);
    lemma_i64_bits_roundtrip(n_ts);
    lemma_be_bytes_u64_roundtrip(s, 1);
    lemma_be_bytes_u64_roundtrip(s, 9);
    assert(spec_encode_keepalive(k) =~= s);
}

/// Law: decoding is a pure function of the buffer contents — any two results
/// obtained from the same bytes are equal.
pub proof fn lemma_decode_deterministic(
    s: Seq<u8>,
    r1: Result<ReplicationMessageView, DecodeError>,
    r2: Result<ReplicationMessageView, DecodeError>,
)
    requires
        r1 == spec_decode_message(s),
        r2 == spec_decode_message(s),
    ensures
        r1 == r2,
{
}

} // verus!

