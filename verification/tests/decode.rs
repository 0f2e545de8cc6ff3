use repcodec::{
    timestamp_from, DecodeError, InnerData, PrimaryKeepAliveBody, ReplicationMessage, TupleData,
    PG_EPOCH_MICROS,
};

fn keepalive_buf(wal_end: u64, ts: i64, reply: u8) -> Vec<u8> {
    let mut buf = vec![b'k'];
    buf.extend_from_slice(&wal_end.to_be_bytes());
    buf.extend_from_slice(&ts.to_be_bytes());
    buf.push(reply);
    buf
}

fn xlog_insert_buf(wal_start: u64, wal_end: u64, ts: i64, rel_id: u32, tuple: &[u8]) -> Vec<u8> {
    let mut buf = vec![b'w'];
    buf.extend_from_slice(&wal_start.to_be_bytes());
    buf.extend_from_slice(&wal_end.to_be_bytes());
    buf.extend_from_slice(&ts.to_be_bytes());
    buf.push(b'I');
    buf.extend_from_slice(&rel_id.to_be_bytes());
    buf.push(b'N');
    buf.extend_from_slice(tuple);
    buf
}

fn decoded_keepalive(buf: &Vec<u8>) -> PrimaryKeepAliveBody {
    match ReplicationMessage::decode(buf) {
        Ok(ReplicationMessage::PrimaryKeepAlive(body)) => body,
        other => panic!("expected a keepalive, got {:?}", other),
    }
}

#[test]
fn keepalive_fields_decode() {
    let buf = keepalive_buf(0xDEAD_BEEF_0123_4567, 5_000_000, 1);
    let body = decoded_keepalive(&buf);
    assert_eq!(body.wal_end(), 0xDEAD_BEEF_0123_4567);
    assert_eq!(body.timestamp().micros(), PG_EPOCH_MICROS + 5_000_000);
    assert_eq!(body.reply(), 1);
}

#[test]
fn keepalive_negative_offset_decodes_before_epoch() {
    let buf = keepalive_buf(7, -2_500_000, 0);
    let body = decoded_keepalive(&buf);
    assert_eq!(body.wal_end(), 7);
    assert_eq!(body.timestamp().micros(), PG_EPOCH_MICROS - 2_500_000);
    assert_eq!(body.reply(), 0);
}

#[test]
fn keepalive_round_trip_reproduces_bytes() {
    for ts in [0i64, 1, -1, 5_000_000, -5_000_000, i64::MAX, i64::MIN] {
        let buf = keepalive_buf(0x0102_0304_0506_0708, ts, 1);
        let body = decoded_keepalive(&buf);
        assert_eq!(body.encode(), buf);
    }
}

#[test]
fn keepalive_encode_exact_bytes() {
    let buf = keepalive_buf(258, -1, 0);
    let body = decoded_keepalive(&buf);
    let out = body.encode();
    assert_eq!(
        out,
        vec![
            b'k', 0, 0, 0, 0, 0, 0, 1, 2, 0xFF, 0xFF, 0xFF, 0xFF, 0xFF, 0xFF, 0xFF, 0xFF, 0
        ]
    );
}

#[test]
fn timestamp_from_zero_is_epoch() {
    assert_eq!(timestamp_from(0).micros(), PG_EPOCH_MICROS);
}

#[test]
fn timestamp_from_one_second_after_epoch() {
    assert_eq!(timestamp_from(1_000_000).micros(), PG_EPOCH_MICROS + 1_000_000);
}

#[test]
fn timestamp_from_one_second_before_epoch() {
    assert_eq!(timestamp_from(-1_000_000).micros(), PG_EPOCH_MICROS - 1_000_000);
}

#[test]
fn timestamp_from_extremes() {
    assert_eq!(timestamp_from(i64::MAX).micros(), PG_EPOCH_MICROS + i64::MAX as i128);
    assert_eq!(timestamp_from(i64::MIN).micros(), PG_EPOCH_MICROS - (i64::MIN as i128).abs());
}

#[test]
fn unknown_outer_tag_fails() {
    let buf = vec![b'X', 0, 0, 0];
    assert_eq!(ReplicationMessage::decode(&buf), Err(DecodeError::UnknownMessageTag));
}

#[test]
fn empty_buffer_fails_truncated() {
    let buf: Vec<u8> = vec![];
    assert_eq!(ReplicationMessage::decode(&buf), Err(DecodeError::Truncated));
}

#[test]
fn short_keepalive_fails_truncated() {
    let buf = vec![b'k', 0, 0];
    assert_eq!(ReplicationMessage::decode(&buf), Err(DecodeError::Truncated));
}

#[test]
fn tuple_with_three_columns() {
    // column count 3: null, unchanged-toast, text "hello"
    let mut buf = vec![0, 3, b'n', b'u', b't', 0, 0, 0, 5];
    buf.extend_from_slice(b"hello");
    let (tuple, end) = repcodec::Tuple::decode(&buf, 0).expect("tuple should decode");
    assert_eq!(end, buf.len());
    let cols = tuple.tuple_data();
    assert_eq!(cols.len(), 3);
    assert_eq!(cols[0], TupleData::Null);
    assert_eq!(cols[1], TupleData::UnchangedToast);
    assert_eq!(cols[2], TupleData::Text(b"hello".to_vec()));
}

#[test]
fn xlog_insert_with_empty_tuple() {
    let buf = xlog_insert_buf(100, 200, 0, 42, &[0, 0]);
    let body = match ReplicationMessage::decode(&buf) {
        Ok(ReplicationMessage::XLogData(body)) => body,
        other => panic!("expected an XLogData frame, got {:?}", other),
    };
    assert_eq!(body.wal_start(), 100);
    assert_eq!(body.wal_end(), 200);
    assert_eq!(body.timestamp().micros(), PG_EPOCH_MICROS);
    match body.data() {
        InnerData::Insert(insert) => {
            assert_eq!(insert.rel_id(), 42);
            assert!(insert.tuple().tuple_data().is_empty());
        }
        other => panic!("expected an insert record, got {:?}", other),
    }
}

#[test]
fn xlog_insert_with_text_column() {
    let buf = xlog_insert_buf(1, 2, 3, 9, &[0, 1, b't', 0, 0, 0, 2, b'o', b'k']);
    let body = match ReplicationMessage::decode(&buf) {
        Ok(ReplicationMessage::XLogData(body)) => body,
        other => panic!("expected an XLogData frame, got {:?}", other),
    };
    let insert = match body.into_data() {
        InnerData::Insert(insert) => insert,
        other => panic!("expected an insert record, got {:?}", other),
    };
    assert_eq!(insert.tuple().tuple_data(), &[TupleData::Text(b"ok".to_vec())]);
}

#[test]
fn text_length_past_buffer_fails_truncated() {
    // declared length 10, only 2 payload bytes present
    let buf = xlog_insert_buf(1, 2, 0, 9, &[0, 1, b't', 0, 0, 0, 10, b'h', b'i']);
    assert_eq!(ReplicationMessage::decode(&buf), Err(DecodeError::Truncated));
}

#[test]
fn negative_text_length_fails_truncated() {
    let buf = xlog_insert_buf(1, 2, 0, 9, &[0, 1, b't', 0xFF, 0xFF, 0xFF, 0xFF]);
    assert_eq!(ReplicationMessage::decode(&buf), Err(DecodeError::Truncated));
}

#[test]
fn negative_column_count_fails() {
    let buf = xlog_insert_buf(1, 2, 0, 9, &[0x80, 0x00]);
    assert_eq!(ReplicationMessage::decode(&buf), Err(DecodeError::InvalidColumnCount));
}

#[test]
fn column_count_past_buffer_fails() {
    // three columns declared, no column bytes follow
    let buf = xlog_insert_buf(1, 2, 0, 9, &[0, 3]);
    assert_eq!(ReplicationMessage::decode(&buf), Err(DecodeError::InvalidColumnCount));
}

#[test]
fn unknown_column_tag_fails() {
    let buf = xlog_insert_buf(1, 2, 0, 9, &[0, 1, b'x']);
    assert_eq!(ReplicationMessage::decode(&buf), Err(DecodeError::UnknownTupleTag));
}

#[test]
fn unsupported_record_kind_fails() {
    for kind in [b'U', b'D', b'B', b'C', b'R'] {
        let mut buf = vec![b'w'];
        buf.extend_from_slice(&1u64.to_be_bytes());
        buf.extend_from_slice(&2u64.to_be_bytes());
        buf.extend_from_slice(&0i64.to_be_bytes());
        buf.push(kind);
        buf.extend_from_slice(&[0, 0, 0, 0, 0, 0]);
        assert_eq!(
            ReplicationMessage::decode(&buf),
            Err(DecodeError::UnsupportedRecordKind)
        );
    }
}

#[test]
fn unsupported_tuple_kind_fails() {
    let mut buf = vec![b'w'];
    buf.extend_from_slice(&1u64.to_be_bytes());
    buf.extend_from_slice(&2u64.to_be_bytes());
    buf.extend_from_slice(&0i64.to_be_bytes());
    buf.push(b'I');
    buf.extend_from_slice(&9u32.to_be_bytes());
    buf.push(b'O'); // old-tuple marker, not supported
    buf.extend_from_slice(&[0, 0]);
    assert_eq!(ReplicationMessage::decode(&buf), Err(DecodeError::UnsupportedTupleKind));
}

#[test]
fn decoding_twice_yields_equal_results() {
    let ok_buf = xlog_insert_buf(100, 200, -7, 42, &[0, 2, b'n', b't', 0, 0, 0, 1, b'z']);
    assert_eq!(ReplicationMessage::decode(&ok_buf), ReplicationMessage::decode(&ok_buf));
    let err_buf = vec![b'Q', 1, 2, 3];
    assert_eq!(ReplicationMessage::decode(&err_buf), ReplicationMessage::decode(&err_buf));
}
