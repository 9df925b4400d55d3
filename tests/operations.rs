use tarantool_rs::dmo::{encode_operations, DmoOperation, DmoOperationFieldKey};

fn encode(op: &DmoOperation) -> Vec<u8> {
    let mut out = Vec::new();
    op.encode_into_writer(&mut out);
    out
}

#[test]
fn assign_by_position() {
    let op = DmoOperation::assign(DmoOperationFieldKey::Unsigned(1), vec![0xa1, b'x']);
    assert_eq!(encode(&op), vec![0x93, 0xa1, b'=', 0x01, 0xa1, b'x']);
}

#[test]
fn add_by_name_and_negative_position() {
    let op = DmoOperation::add(DmoOperationFieldKey::Name("rank".to_string()), vec![0x05]);
    assert_eq!(encode(&op), vec![0x93, 0xa1, b'+', 0xa4, b'r', b'a', b'n', b'k', 0x05]);
    let op = DmoOperation::sub(DmoOperationFieldKey::Signed(-1), vec![0x01]);
    assert_eq!(encode(&op), vec![0x93, 0xa1, b'-', 0xff, 0x01]);
    let op = DmoOperation::xor(DmoOperationFieldKey::Signed(-100), vec![0x01]);
    assert_eq!(encode(&op), vec![0x93, 0xa1, b'^', 0xd0, 0x9c, 0x01]);
    let op = DmoOperation::and(DmoOperationFieldKey::Unsigned(300), vec![0x01]);
    assert_eq!(encode(&op), vec![0x93, 0xa1, b'&', 0xcd, 0x01, 0x2c, 0x01]);
}

#[test]
fn delete_insert_or_splice() {
    let op = DmoOperation::delete(DmoOperationFieldKey::Unsigned(2));
    assert_eq!(encode(&op), vec![0x92, 0xa1, b'#', 0x02]);
    let op = DmoOperation::insert(DmoOperationFieldKey::Unsigned(2), vec![0xc3]);
    assert_eq!(encode(&op), vec![0x93, 0xa1, b'!', 0x02, 0xc3]);
    let op = DmoOperation::or(DmoOperationFieldKey::Unsigned(2), vec![0x04]);
    assert_eq!(encode(&op), vec![0x93, 0xa1, b'|', 0x02, 0x04]);
    let op = DmoOperation::string_splice(DmoOperationFieldKey::Unsigned(3), 1, 200, "ab");
    assert_eq!(
        encode(&op),
        vec![0x95, 0xa1, b':', 0x03, 0x01, 0xcc, 200, 0xa2, b'a', b'b']
    );
}

#[test]
fn operations_as_one_array() {
    let ops = vec![
        DmoOperation::assign(DmoOperationFieldKey::Unsigned(1), vec![0x07]),
        DmoOperation::delete(DmoOperationFieldKey::Unsigned(3)),
    ];
    assert_eq!(
        encode_operations(&ops).unwrap(),
        vec![0x92, 0x93, 0xa1, b'=', 0x01, 0x07, 0x92, 0xa1, b'#', 0x03]
    );
    assert_eq!(encode_operations(&vec![]).unwrap(), vec![0x90]);
}
