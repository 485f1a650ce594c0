use std::rc::Rc;
use storage::buffer::{
    read_u16_at, read_u32_at, read_u64_at, read_u8_at, write_u16_at, write_u32_at, write_u64_at,
    write_u8_at,
};
use storage::schema::{DbType, FieldSpec, Table, TypeSpec, POINTER_SIZE};

#[test]
fn read_data_from_buffer() {
    let bytes: Vec<u8> = vec![0, 0];
    let val = read_u16_at(&bytes, 0).unwrap();
    assert_eq!(0, val);

    let bytes: Vec<u8> = vec![4, 1];
    let val = read_u16_at(&bytes, 0).unwrap();
    assert_eq!(260, val);
}

#[test]
fn write_data_to_buffer() {
    let mut bytes: Vec<u8> = vec![0, 0];
    write_u16_at(&mut bytes, 0, 0).unwrap();
    assert_eq!(vec![0, 0], bytes);

    let mut bytes: Vec<u8> = vec![0, 0];
    write_u16_at(&mut bytes, 0, 260).unwrap();
    assert_eq!(vec![4, 1], bytes);
}

#[test]
fn data_buffer_roundtrip() {
    let mut bytes = vec![0; 16];
    write_u64_at(&mut bytes, 0, 5280u64).unwrap();
    write_u32_at(&mut bytes, 9, 12345u32).unwrap();
    write_u16_at(&mut bytes, 13, 512u16).unwrap();
    write_u8_at(&mut bytes, 15, 128u8).unwrap();

    assert_eq!(5280, read_u64_at(&bytes, 0).unwrap());
    assert_eq!(12345, read_u32_at(&bytes, 9).unwrap());
    assert_eq!(512, read_u16_at(&bytes, 13).unwrap());
    assert_eq!(128, read_u8_at(&bytes, 15).unwrap());
}

#[test]
fn fixed_row_length() {
    let schema1 = Rc::new(vec![FieldSpec::new(
        "id".to_string(),
        TypeSpec::new(DbType::UInt64, false, None),
    )]);
    let table1 = Table::new("test 1".to_string(), schema1.clone());
    assert_eq!(8, table1.row_length());

    let schema2 = Rc::new(vec![
        FieldSpec::new("id".to_string(), TypeSpec::new(DbType::UInt64, false, None)),
        FieldSpec::new("age".to_string(), TypeSpec::new(DbType::UInt32, false, None)),
        FieldSpec::new(
            "is_active".to_string(),
            TypeSpec::new(DbType::Boolean, false, None),
        ),
        FieldSpec::new(
            "notes".to_string(),
            TypeSpec::new(DbType::Varchar(1000), false, None),
        ),
        FieldSpec::new("image".to_string(), TypeSpec::new(DbType::Blob, false, None)),
    ]);
    let table2 = Table::new("test 2".to_string(), schema2.clone());
    assert_eq!(17 + 2 * POINTER_SIZE, table2.row_length());
}

#[test]
fn variable_row_length() {
    let table1 = Table::new(
        "test 1".to_string(),
        Rc::new(vec![FieldSpec::new(
            "name".to_string(),
            TypeSpec::new(DbType::Varchar(30), false, None),
        )]),
    );
    assert_eq!(31, table1.row_length());

    let table2 = Table::new(
        "test 1".to_string(),
        Rc::new(vec![
            FieldSpec::new(
                "title".to_string(),
                TypeSpec::new(DbType::Varchar(30), false, None),
            ),
            FieldSpec::new(
                "description".to_string(),
                TypeSpec::new(DbType::Varchar(255), false, None),
            ),
        ]),
    );
    assert_eq!(287, table2.row_length());
}
