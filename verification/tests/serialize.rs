use storage::db_value::{DBBoolean, DBExternalString, DBInlineString, DBUInt32, DBUInt64};
use storage::heap::DbHeap;

#[test]
fn uint64_serialize() {
    let mut heap_unused = DbHeap::new();

    let test_cases: Vec<u64> = vec![0, u64::MAX, 4538756723];
    for x in test_cases {
        let val = DBUInt64(x);
        let mut new_val = DBUInt64::new();
        let mut buf = vec![0u8; 8];

        val.write_to_buffer(&mut buf, &mut heap_unused).unwrap();
        new_val.read_from_buffer(&buf, &heap_unused).unwrap();

        assert_eq!(val, new_val);
    }
}

#[test]
fn uint32_serialize() {
    let mut heap_unused = DbHeap::new();

    let test_cases: Vec<u32> = vec![0, u32::MAX, 4538756];
    for x in test_cases {
        let val = DBUInt32(x);
        let mut new_val = DBUInt32::new();
        let mut buf = vec![0u8; 4];

        val.write_to_buffer(&mut buf, &mut heap_unused).unwrap();
        new_val.read_from_buffer(&buf, &heap_unused).unwrap();

        assert_eq!(val, new_val);
    }
}

#[test]
fn boolean_serialize() {
    let mut heap_unused = DbHeap::new();

    let test_cases: Vec<bool> = vec![true, false];
    for p in test_cases {
        let val = DBBoolean(p);
        let mut new_val = DBBoolean::new();
        let mut buf = vec![0u8; 1];

        val.write_to_buffer(&mut buf, &mut heap_unused).unwrap();
        new_val.read_from_buffer(&buf, &heap_unused).unwrap();

        assert_eq!(val, new_val);
    }
}

#[test]
fn inline_string_serialize() {
    let mut heap_unused = DbHeap::new();

    let test_cases: Vec<String> = vec![
        "".to_string(),
        " ".to_string(),
        "abc123!@#\n\t".to_string(),
        "Infinite Taco -> âˆž ðŸŒ®".to_string(),
    ];
    for s in test_cases {
        let val = DBInlineString(s);
        let mut new_val = DBInlineString::new();
        let mut buf = vec![0u8; 64];

        val.write_to_buffer(&mut buf, &mut heap_unused).unwrap();
        new_val.read_from_buffer(&buf, &heap_unused).unwrap();

        assert_eq!(val, new_val);
    }
}

#[test]
fn external_string_serialize() {
    let mut heap = DbHeap::new();

    let test_cases: Vec<String> = vec![
        "".to_string(),
        " ".to_string(),
        "abc123!@#\n\t".to_string(),
        "Infinite Taco -> âˆž ðŸŒ®".to_string(),
    ];
    for s in test_cases {
        let val = DBExternalString(s);
        let mut new_val = DBExternalString::new();
        let mut buf = vec![0u8; 8];

        val.write_to_buffer(&mut buf, &mut heap).unwrap();
        new_val.read_from_buffer(&buf, &heap).unwrap();

        assert_eq!(val, new_val);
    }
}
