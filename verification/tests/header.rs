use lib::mem::{as_bytes, AsBytes, AsBytesMut};
use lib::pod::kind::{
    SpaCommandKind, SpaEventKind, SpaKind, SpaObjectKind, SpaPointerKind, SpaVendorKind,
};
use lib::pod::{checked_align8, SpaHeader};

#[test]
fn kind_values_round_trip() {
    assert_eq!(SpaKind::Nil.as_u32(), 1);
    assert_eq!(SpaKind::Pod.as_u32(), 20);
    assert_eq!(SpaKind::Array.as_u32(), SpaKind::ARRAY);
    for x in 0..=25u32 {
        match SpaKind::from_u32(x) {
            Some(k) => {
                assert!((1..=20).contains(&x));
                assert_eq!(k.as_u32(), x);
            }
            None => assert!(x == 0 || x > 20),
        }
    }
    assert_eq!(SpaKind::from_u32(SpaKind::FD), Some(SpaKind::Fd));
}

#[test]
fn other_kinds_from_u32() {
    assert_eq!(SpaPointerKind::from_u32(0x1_0001), Some(SpaPointerKind::Buffer));
    assert_eq!(SpaPointerKind::from_u32(0x1_0003), Some(SpaPointerKind::Dict));
    assert_eq!(SpaPointerKind::from_u32(0x1_0004), None);
    assert_eq!(SpaEventKind::from_u32(0x2_0002), Some(SpaEventKind::Node));
    assert_eq!(SpaEventKind::from_u32(0x2_0000), None);
    assert_eq!(SpaCommandKind::from_u32(0x3_0001), Some(SpaCommandKind::Device));
    assert_eq!(SpaObjectKind::from_u32(0x4_000c), Some(SpaObjectKind::ParamProcessLatency));
    assert_eq!(SpaObjectKind::from_u32(0x4_0006), Some(SpaObjectKind::ParamIO));
    assert_eq!(SpaObjectKind::from_u32(0x4_000d), None);
    assert_eq!(SpaVendorKind::from_u32(0x0200_0000), Some(SpaVendorKind::PipeWire));
    assert_eq!(SpaVendorKind::from_u32(0x7f00_0000), Some(SpaVendorKind::Other));
    assert_eq!(SpaVendorKind::from_u32(0x0200_0001), None);
    assert_eq!(SpaVendorKind::Other.as_u32(), 0x7f00_0000);
}

#[test]
fn expected_sizes() {
    assert_eq!(SpaKind::Nil.expected_size(), Some(0));
    assert_eq!(SpaKind::Bool.expected_size(), Some(4));
    assert_eq!(SpaKind::Float.expected_size(), Some(4));
    assert_eq!(SpaKind::Fraction.expected_size(), Some(8));
    assert_eq!(SpaKind::Pointer.expected_size(), Some(16));
    assert_eq!(SpaKind::String.expected_size(), None);
    assert!(SpaKind::Fd.is_primitive());
    assert!(!SpaKind::Struct.is_primitive());
}

#[test]
fn stride_aligns_to_eight() {
    assert_eq!(checked_align8(0), Some(0));
    assert_eq!(checked_align8(1), Some(8));
    assert_eq!(checked_align8(8), Some(8));
    assert_eq!(checked_align8(13), Some(16));
    assert_eq!(checked_align8(0xffff_fff8), Some(0xffff_fff8));
    assert_eq!(checked_align8(0xffff_fff9), None);
    let h = SpaHeader { size: 5, kind: SpaKind::STRING };
    assert_eq!(h.stride(), Some(8));
    assert_eq!(h.expected_size(), None);
    assert_eq!(h.expected_stride(), None);
    let h = SpaHeader { size: u32::MAX, kind: SpaKind::BOOL };
    assert_eq!(h.stride(), None);
    assert_eq!(h.expected_size(), Some(4));
    assert_eq!(h.expected_stride(), Some(8));
    let h = SpaHeader { size: 0, kind: 99 };
    assert_eq!(h.spa_kind(), None);
    assert_eq!(h.expected_size(), None);
}

#[test]
fn header_from_kind() {
    let h = SpaHeader::from_spa_kind(SpaKind::Long).unwrap();
    assert_eq!(h, SpaHeader { size: 8, kind: 5 });
    assert_eq!(SpaHeader::from_spa_kind(SpaKind::Array), None);
    assert_eq!(SpaHeader::none(), SpaHeader { size: 0, kind: 1 });
    assert_eq!(SpaHeader::default(), SpaHeader::none());
    assert_eq!(SpaHeader::none().spa_kind(), Some(SpaKind::Nil));
}

#[test]
fn header_bytes_round_trip() {
    let h = SpaHeader { size: 0x0102_0304, kind: 13 };
    let mut bytes = as_bytes(&h);
    assert_eq!(bytes, vec![4, 3, 2, 1, 13, 0, 0, 0]);
    bytes.extend_from_slice(&[9, 9]);
    let (parsed, rest) = SpaHeader::split_bytes(&bytes).unwrap();
    assert_eq!(parsed, h);
    assert_eq!(rest, &[9, 9]);
    assert_eq!(SpaHeader::from_bytes(&bytes), Some(h));
    assert_eq!(SpaHeader::split_bytes(&bytes[..7]), None);
    assert_eq!(SpaHeader::from_bytes(&[]), None);
}

#[test]
fn header_write_bytes() {
    let mut h = SpaHeader::none();
    h.write_bytes(&[8, 0, 0, 0, 2, 0, 0, 0]);
    assert_eq!(h, SpaHeader { size: 8, kind: SpaKind::BOOL });
    assert_eq!(h.to_bytes(), vec![8, 0, 0, 0, 2, 0, 0, 0]);
}

#[test]
fn split_bytes_mut_writes_in_place() {
    let mut bytes = vec![4, 0, 0, 0, 4, 0, 0, 0, 9, 9];
    {
        let (mut h, rest) = SpaHeader::split_bytes_mut(&mut bytes).unwrap();
        assert_eq!(h.get(), SpaHeader { size: 4, kind: SpaKind::INT });
        h.set(SpaHeader { size: 8, kind: SpaKind::LONG });
        assert_eq!(h.get().kind, SpaKind::LONG);
        assert_eq!(rest, &[9, 9]);
        rest[1] = 1;
    }
    assert_eq!(bytes, vec![8, 0, 0, 0, 5, 0, 0, 0, 9, 1]);
    assert!(SpaHeader::split_bytes_mut(&mut [0u8; 7]).is_none());
}

#[test]
fn from_bytes_mut_writes_in_place() {
    let mut bytes = vec![0, 0, 0, 0, 1, 0, 0, 0, 3];
    {
        let mut h = SpaHeader::from_bytes_mut(&mut bytes).unwrap();
        let mut v = h.get();
        assert_eq!(v, SpaHeader::none());
        v.size = 0x0102_0304;
        h.set(v);
    }
    assert_eq!(bytes, vec![4, 3, 2, 1, 1, 0, 0, 0, 3]);
    assert!(SpaHeader::from_bytes_mut(&mut []).is_none());
}
