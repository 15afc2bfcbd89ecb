use escrow::address::Address;

#[test]
fn same_compares_bytes() {
    let a = Address::new([1u8; 32]);
    let b = Address::new([1u8; 32]);
    let c = Address::new([2u8; 32]);
    assert!(a.same(&b));
    assert!(!a.same(&c));
}

#[test]
fn same_sees_a_difference_in_the_last_byte() {
    let a = Address::new([0u8; 32]);
    let mut bytes = [0u8; 32];
    bytes[31] = 1;
    assert!(!a.same(&Address::new(bytes)));
}

#[test]
fn read_takes_thirty_two_bytes_from_the_offset() {
    let data: Vec<u8> = (0u8..40).collect();
    let a = Address::read(&data, 3);
    let expected: Vec<u8> = (3u8..35).collect();
    assert_eq!(a.bytes.to_vec(), expected);
}

#[test]
fn write_changes_only_its_thirty_two_bytes() {
    let mut data = vec![0xeeu8; 40];
    Address::new([7u8; 32]).write(&mut data, 5);
    assert_eq!(&data[..5], &[0xeeu8; 5]);
    assert_eq!(&data[5..37], &[7u8; 32]);
    assert_eq!(&data[37..], &[0xeeu8; 3]);
}

#[test]
fn write_then_read_gives_the_address_back() {
    let mut bytes = [0u8; 32];
    for (i, b) in bytes.iter_mut().enumerate() {
        *b = (i * 7) as u8;
    }
    let a = Address::new(bytes);
    let mut data = vec![0u8; 32];
    a.write(&mut data, 0);
    assert_eq!(Address::read(&data, 0), a);
}
