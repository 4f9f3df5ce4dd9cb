use lib::mem::{
    as_bytes, Access, AccessKind, AsBytes, AsBytesMut, Byte, Read, ReadWrite, UnsafeBytes, Write,
};

#[test]
fn bytes() {
    let b = Byte::new(7);
    assert_eq!(b.get(), 7);
    assert_eq!(as_bytes(&b), vec![7]);
    let mut c = Byte::new(0);
    c.write_bytes(&[9]);
    assert_eq!(c.get(), 9);
    assert_eq!(5u8.to_bytes(), vec![5]);
    assert_eq!(0x0102_0304u32.to_bytes(), vec![4, 3, 2, 1]);
    assert_eq!((-2i32).to_bytes(), vec![0xfe, 0xff, 0xff, 0xff]);
    let mut x = 0u32;
    x.write_bytes(&[1, 1, 0, 0]);
    assert_eq!(x, 257);
}

#[test]
fn access_kinds() {
    assert!(AccessKind::Read.can_read());
    assert!(!AccessKind::Read.can_write());
    assert!(AccessKind::Write.can_write());
    assert!(!AccessKind::Write.can_read());
    assert!(AccessKind::ReadWrite.can_read() && AccessKind::ReadWrite.can_write());
    assert_eq!(AccessKind::default(), AccessKind::ReadWrite);
    assert_eq!(Read::kind(), AccessKind::Read);
    assert_eq!(Write::kind(), AccessKind::Write);
    assert_eq!(ReadWrite::kind(), AccessKind::ReadWrite);
    assert_eq!(ReadWrite::access(), ReadWrite);
}

#[test]
fn unsafe_bytes() {
    let mut u: UnsafeBytes<u32, ReadWrite> = UnsafeBytes::new(0x0a0b_0c0d);
    assert_eq!(u.as_bytes(), vec![0x0d, 0x0c, 0x0b, 0x0a]);
    u.as_bytes_mut(&[1, 0, 0, 0]);
    assert_eq!(*u.as_ref(), 1);
    *u.as_mut() = 2;
    assert_eq!(u.into_inner(), 2);
    let r: UnsafeBytes<u8, Read> = UnsafeBytes::new(3);
    assert_eq!(r.as_bytes(), vec![3]);
}
