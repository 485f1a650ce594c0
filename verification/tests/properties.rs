use std::rc::Rc;
use storage::buffer::read_u64_at;
use storage::db_value::{
    DBBoolean, DBExternalString, DBInlineString, DBInt32, DBInt64, DBUInt32, DBUInt64,
};
use storage::heap::DbHeap;
use storage::schema::{DbType, FieldSpec, Table, TypeSpec};
use storage::DbError;

#[test]
fn inline_string_at_length_boundary() {
    let mut heap = DbHeap::new();
    let s = "a".repeat(255);
    let val = DBInlineString(s);
    let mut new_val = DBInlineString::new();
    let mut buf = vec![0u8; 256];

    val.write_to_buffer(&mut buf, &mut heap).unwrap();
    assert_eq!(buf[0], 255);
    new_val.read_from_buffer(&buf, &heap).unwrap();
    assert_eq!(val, new_val);
}

#[test]
fn inline_string_over_length_budget_fails() {
    let mut heap = DbHeap::new();
    let s = "a".repeat(256);
    let val = DBInlineString(s);
    let mut buf = vec![0u8; 512];

    let r = val.write_to_buffer(&mut buf, &mut heap);
    assert_eq!(r, Err(DbError::LengthOverflow));
    assert_eq!(buf, vec![0u8; 512]);
}

#[test]
fn inline_string_slot_too_small_fails() {
    let mut heap = DbHeap::new();
    let val = DBInlineString("hello".to_string());
    let mut buf = vec![0u8; 5];

    let r = val.write_to_buffer(&mut buf, &mut heap);
    assert_eq!(r, Err(DbError::Bounds));
}

#[test]
fn inline_string_lenient_decode_substitutes() {
    let heap = DbHeap::new();
    let slot: Vec<u8> = vec![2, 0xFF, 0xFE, 0];
    let mut val = DBInlineString::new();
    val.read_from_buffer(&slot, &heap).unwrap();
    assert_eq!(val.0, "\u{FFFD}\u{FFFD}");
}

#[test]
fn inline_string_truncated_payload_fails() {
    let heap = DbHeap::new();
    let slot: Vec<u8> = vec![5, 1, 2];
    let mut val = DBInlineString::new();
    let r = val.read_from_buffer(&slot, &heap);
    assert_eq!(r, Err(DbError::Bounds));
}

#[test]
fn short_slice_decode_fails_for_every_type() {
    let heap = DbHeap::new();

    let mut u64_val = DBUInt64::new();
    assert_eq!(u64_val.read_from_buffer(&[0u8; 7], &heap), Err(DbError::Bounds));

    let mut u32_val = DBUInt32::new();
    assert_eq!(u32_val.read_from_buffer(&[0u8; 3], &heap), Err(DbError::Bounds));

    let mut bool_val = DBBoolean::new();
    assert_eq!(bool_val.read_from_buffer(&[], &heap), Err(DbError::Bounds));

    let mut inline_val = DBInlineString::new();
    assert_eq!(inline_val.read_from_buffer(&[], &heap), Err(DbError::Bounds));

    let mut ext_val = DBExternalString::new();
    assert_eq!(ext_val.read_from_buffer(&[0u8; 7], &heap), Err(DbError::Bounds));
}

#[test]
fn short_slot_encode_fails_for_every_type() {
    let mut heap = DbHeap::new();

    let mut buf = vec![0u8; 7];
    assert_eq!(
        DBUInt64(1).write_to_buffer(&mut buf, &mut heap),
        Err(DbError::Bounds)
    );

    let mut buf = vec![0u8; 3];
    assert_eq!(
        DBUInt32(1).write_to_buffer(&mut buf, &mut heap),
        Err(DbError::Bounds)
    );

    let mut buf = vec![];
    assert_eq!(
        DBBoolean(true).write_to_buffer(&mut buf, &mut heap),
        Err(DbError::Bounds)
    );

    let mut buf = vec![0u8; 7];
    assert_eq!(
        DBExternalString("x".to_string()).write_to_buffer(&mut buf, &mut heap),
        Err(DbError::Bounds)
    );
    assert_eq!(heap.len(), 0);
}

#[test]
fn heap_offsets_stay_stable_across_appends() {
    let mut heap = DbHeap::new();
    let items: Vec<Vec<u8>> = vec![
        vec![1, 2, 3],
        vec![],
        vec![255; 100],
        vec![0],
        b"interleaved".to_vec(),
    ];

    let mut offsets = Vec::new();
    for item in &items {
        let mut data = item.clone();
        let offset = heap.append_data(&mut data);
        assert!(data.is_empty());
        offsets.push(offset);
        // every earlier item is still intact right after this append
        for (o, earlier) in offsets.iter().zip(items.iter()) {
            assert_eq!(heap.get_slice(*o, earlier.len()).unwrap(), &earlier[..]);
        }
    }

    // offsets are the arena lengths before each append
    assert_eq!(offsets, vec![0, 3, 3, 103, 104]);
}

#[test]
fn heap_slice_out_of_range_fails() {
    let mut heap = DbHeap::new();
    let mut data = vec![1, 2, 3, 4];
    heap.append_data(&mut data);

    assert_eq!(heap.get_slice(0, 5), Err(DbError::Bounds));
    assert_eq!(heap.get_slice(4, 1), Err(DbError::Bounds));
    assert_eq!(heap.get_slice(5, 0), Err(DbError::Bounds));
    assert_eq!(heap.get_slice(usize::MAX, 2), Err(DbError::Bounds));
    assert_eq!(heap.get_slice(1, 3).unwrap(), &[2, 3, 4]);
}

#[test]
fn external_string_heap_record_layout() {
    for len in [0usize, 1, 255, 256, 1000] {
        let mut heap = DbHeap::new();
        let mut pad = vec![7u8; 13];
        heap.append_data(&mut pad);

        let s = "b".repeat(len);
        let val = DBExternalString(s.clone());
        let mut slot = vec![0u8; 8];
        val.write_to_buffer(&mut slot, &mut heap).unwrap();

        // the slot holds the offset of the record
        let offset = read_u64_at(&slot, 0).unwrap() as usize;
        assert_eq!(offset, 13);

        // the record's length field equals the payload's byte length
        let len_field = heap.get_slice(offset, 8).unwrap();
        assert_eq!(len_field, &(len as u64).to_le_bytes()[..]);

        // the payload is the raw string bytes
        let payload = heap.get_slice(offset + 8, len).unwrap();
        assert_eq!(payload, s.as_bytes());

        // and it round-trips through decode
        let mut new_val = DBExternalString::new();
        new_val.read_from_buffer(&slot, &heap).unwrap();
        assert_eq!(new_val.0, s);
    }
}

#[test]
fn external_slot_pointing_past_heap_fails() {
    let heap = DbHeap::new();
    let slot = vec![1u8, 0, 0, 0, 0, 0, 0, 0];
    let mut val = DBExternalString::new();
    assert_eq!(val.read_from_buffer(&slot, &heap), Err(DbError::Bounds));
    assert_eq!(val.0, "");
}

#[test]
fn scalar_footprints_sum_in_order() {
    let schema = Rc::new(vec![
        FieldSpec::new("flag".to_string(), TypeSpec::new(DbType::Boolean, false, None)),
        FieldSpec::new("count".to_string(), TypeSpec::new(DbType::UInt32, false, None)),
        FieldSpec::new("id".to_string(), TypeSpec::new(DbType::UInt64, false, None)),
    ]);
    let table = Table::new("scalars".to_string(), schema);
    assert_eq!(13, table.row_length());

    assert_eq!(0, table.field_offset(0));
    assert_eq!(1, table.field_offset(1));
    assert_eq!(5, table.field_offset(2));
    assert_eq!(13, table.field_offset(3));
}

#[test]
fn type_footprints_ignore_runtime_length() {
    assert_eq!(DbType::Boolean.size(), 1);
    assert_eq!(DbType::Int32.size(), 4);
    assert_eq!(DbType::UInt32.size(), 4);
    assert_eq!(DbType::Int64.size(), 8);
    assert_eq!(DbType::UInt64.size(), 8);
    assert_eq!(DbType::Varchar(0).size(), 1);
    assert_eq!(DbType::Varchar(255).size(), 256);
    assert_eq!(DbType::Varchar(256).size(), 10);
    assert_eq!(DbType::Varchar(100000).size(), 10);
    assert_eq!(DbType::Blob.size(), 10);

    let t = TypeSpec::new(DbType::Varchar(30), true, Some(vec![0u8; 31]));
    assert_eq!(t.size(), 31);
    let f = FieldSpec::new("note".to_string(), t);
    assert_eq!(f.size(), 31);
}

#[test]
fn boolean_decode_is_lenient() {
    let heap = DbHeap::new();
    let mut val = DBBoolean::new();
    val.read_from_buffer(&[1], &heap).unwrap();
    assert!(val.0);
    val.read_from_buffer(&[0], &heap).unwrap();
    assert!(!val.0);
    // any byte other than 1 decodes to false
    val.read_from_buffer(&[2], &heap).unwrap();
    assert!(!val.0);
    val.read_from_buffer(&[255], &heap).unwrap();
    assert!(!val.0);
}

#[test]
fn multibyte_utf8_round_trips() {
    let mut heap = DbHeap::new();
    let s = "héllo ∞ 🌮".to_string();

    let inline = DBInlineString(s.clone());
    let mut inline_back = DBInlineString::new();
    let mut slot = vec![0u8; 32];
    inline.write_to_buffer(&mut slot, &mut heap).unwrap();
    inline_back.read_from_buffer(&slot, &heap).unwrap();
    assert_eq!(inline_back.0, s);

    let external = DBExternalString(s.clone());
    let mut external_back = DBExternalString::new();
    let mut slot = vec![0u8; 8];
    external.write_to_buffer(&mut slot, &mut heap).unwrap();
    external_back.read_from_buffer(&slot, &heap).unwrap();
    assert_eq!(external_back.0, s);
}

#[test]
fn int64_serialize() {
    let mut heap_unused = DbHeap::new();

    let test_cases: Vec<i64> = vec![0, i64::MIN, i64::MAX, -1, -4538756723];
    for x in test_cases {
        let val = DBInt64(x);
        let mut new_val = DBInt64::new();
        let mut buf = vec![0u8; 8];

        val.write_to_buffer(&mut buf, &mut heap_unused).unwrap();
        new_val.read_from_buffer(&buf, &heap_unused).unwrap();

        assert_eq!(val, new_val);
    }

    let mut short_val = DBInt64::new();
    assert_eq!(
        short_val.read_from_buffer(&[0u8; 7], &heap_unused),
        Err(DbError::Bounds)
    );
}

#[test]
fn int32_serialize() {
    let mut heap_unused = DbHeap::new();

    let test_cases: Vec<i32> = vec![0, i32::MIN, i32::MAX, -1, -4538756];
    for x in test_cases {
        let val = DBInt32(x);
        let mut new_val = DBInt32::new();
        let mut buf = vec![0u8; 4];

        val.write_to_buffer(&mut buf, &mut heap_unused).unwrap();
        new_val.read_from_buffer(&buf, &heap_unused).unwrap();

        assert_eq!(val, new_val);
    }

    let mut short_val = DBInt32::new();
    assert_eq!(
        short_val.read_from_buffer(&[0u8; 3], &heap_unused),
        Err(DbError::Bounds)
    );
}

#[test]
fn signed_values_use_twos_complement_little_endian() {
    let mut heap = DbHeap::new();
    let mut buf = vec![0u8; 8];
    DBInt64(-2).write_to_buffer(&mut buf, &mut heap).unwrap();
    assert_eq!(buf, vec![0xFE, 0xFF, 0xFF, 0xFF, 0xFF, 0xFF, 0xFF, 0xFF]);

    let mut buf = vec![0u8; 4];
    DBInt32(-2).write_to_buffer(&mut buf, &mut heap).unwrap();
    assert_eq!(buf, vec![0xFE, 0xFF, 0xFF, 0xFF]);
}

#[test]
fn value_sizes_match_footprints() {
    assert_eq!(DBUInt64(5).size(), 8);
    assert_eq!(DBUInt32(5).size(), 4);
    assert_eq!(DBInt64(-5).size(), 8);
    assert_eq!(DBInt32(-5).size(), 4);
    assert_eq!(DBBoolean(true).size(), 1);
    assert_eq!(DBInlineString("abcd".to_string()).size(), 5);
    // the external footprint is the pointer width, not the data length
    assert_eq!(DBExternalString("a".repeat(5000)).size(), 8);
}
