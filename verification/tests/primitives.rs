use lib::mem::{AsBytes, AsBytesMut};
use lib::pod::kind::SpaKind;
use lib::pod::{
    into_spa_fd, AsPrimPod, AsPrimPodMut, PrimBody, PrimLayout, PrimPod, SpaBool, SpaFd, SpaId,
    SpaInt, SpaLong, SpaNone, SpaPointer, SpaRectangle,
};

#[test]
fn bool_logic() {
    assert_eq!(SpaBool::new(true).0, 1);
    assert_eq!(SpaBool::new(false).0, 0);
    assert!(SpaBool(-7).as_bool());
    assert!(!SpaBool(0).as_bool());
    assert!(SpaBool(2) == SpaBool(1));
    assert!(SpaBool(0) != SpaBool(3));
    assert_eq!((!SpaBool(5)).0, 0);
    assert_eq!((!SpaBool(0)).0, 1);
    assert_eq!((SpaBool(2) & SpaBool(4)).0, 1);
    assert_eq!((SpaBool(2) & SpaBool(0)).0, 0);
    assert_eq!((SpaBool(0) | SpaBool(9)).0, 1);
    assert_eq!((SpaBool(3) ^ SpaBool(9)).0, 0);
    assert_eq!((SpaBool(3) ^ SpaBool(0)).0, 1);
    let b: SpaBool = true.into();
    assert!(bool::from(b));
    let i: i32 = SpaBool::from(-3).into();
    assert_eq!(i, -3);
    assert_eq!(SpaBool::default().0, 0);
}

#[test]
fn bool_bytes() {
    let b = SpaBool(-1);
    assert_eq!(b.to_bytes(), vec![255, 255, 255, 255]);
    assert_eq!(SpaBool::decode(&[0, 1, 0, 0, 0], 1).0, 1);
    let mut c = SpaBool(0);
    c.write_bytes(&[2, 0, 0, 0]);
    assert_eq!(c.0, 2);
    assert_eq!(SpaBool::kind(), 2);
    assert_eq!(SpaBool::size(), 4);
    assert_eq!(SpaBool::stride(), 8);
    assert_eq!(SpaBool::padding_size(), 4);
    assert_eq!(SpaKind::of::<SpaBool>(), SpaKind::Bool);
    let x: u32 = 0xffff_fffe;
    let p: SpaBool = x.to_prim();
    assert_eq!(p.0, -2);
    let mut y: u32 = 0;
    y.write_prim(SpaBool(-1));
    assert_eq!(y, u32::MAX);
    let mut z: i32 = 0;
    AsPrimPodMut::<SpaBool>::write_prim(&mut z, SpaBool(4));
    assert_eq!(z, 4);
}

#[test]
fn layouts() {
    let l = PrimLayout::of::<SpaBool>();
    assert_eq!((l.size, l.stride, l.padding), (4, 8, 4));
    let l = PrimLayout::of::<SpaLong>();
    assert_eq!((l.size, l.stride, l.padding), (8, 8, 0));
    let l = PrimLayout::of::<SpaPointer>();
    assert_eq!((l.size, l.stride, l.padding), (16, 16, 0));
    let l = PrimLayout::of::<SpaNone<u8>>();
    assert_eq!((l.size, l.stride, l.padding), (0, 0, 0));
    let l = PrimLayout::of::<SpaId>();
    assert_eq!((l.size, l.stride, l.padding), (4, 8, 4));
}

#[test]
fn prim_body() {
    let mut body = PrimBody::new(SpaInt(7));
    assert_eq!(body.padding, [0, 0, 0, 0]);
    assert_eq!(body.as_value().0, 7);
    *body.as_value_mut() = SpaInt(-1);
    body.as_padding_mut()[0] = 3;
    let (v, p) = body.split();
    assert_eq!(v.0, -1);
    assert_eq!(*p, [3, 0, 0, 0]);
    assert_eq!(body.to_bytes(), vec![255, 255, 255, 255, 3, 0, 0, 0]);
    {
        let (v, p) = body.split_mut();
        v.0 = 2;
        p[0] = 0;
    }
    assert_eq!(body.as_value().0, 2);
    assert_eq!(*body.as_padding(), [0, 0, 0, 0]);
    let d = PrimBody::<SpaLong>::default_body();
    assert_eq!(d.value.0, 0);
    assert_eq!(d.padding.len(), 0);
}

#[test]
fn id_int_long() {
    assert_eq!(u32::from(SpaId::from(9u32)), 9);
    assert_eq!(SpaId::try_from(5usize).unwrap().0, 5);
    assert!(SpaId::try_from(usize::MAX).is_err() || usize::BITS == 32);
    assert_eq!(usize::from(SpaId(3)), 3);
    assert_eq!(SpaId(0x0102_0304).to_bytes(), vec![4, 3, 2, 1]);
    assert_eq!(SpaInt::decode(&[0xfe, 0xff, 0xff, 0xff], 0).0, -2);
    assert_eq!(i32::from(SpaInt::from(-4)), -4);
    assert_eq!(isize::from(SpaInt(-6)), -6);
    assert_eq!(SpaInt::try_from(-7isize).unwrap().0, -7);
    assert_eq!(SpaLong(-2).to_bytes(), vec![0xfe, 0xff, 0xff, 0xff, 0xff, 0xff, 0xff, 0xff]);
    assert_eq!(SpaLong::decode(&[1, 0, 0, 0, 0, 0, 0, 0x80], 0).0, i64::MIN + 1);
    assert_eq!(isize::try_from(SpaLong(12)).unwrap(), 12);
    assert_eq!(SpaLong::try_from(12isize).unwrap().0, 12);
    assert_eq!(i64::from(SpaLong::from(3i64)), 3);
    assert_eq!(SpaInt::default().0, 0);
    assert_eq!(SpaLong::default_value().0, 0);
}

#[test]
fn fd_conversions() {
    assert_eq!(SpaFd::invalid().0, -1);
    assert_eq!(SpaFd::default(), SpaFd(-1));
    assert_eq!(SpaFd::default_value(), SpaFd(-1));
    assert_eq!(into_spa_fd(3), SpaFd(3));
    assert_eq!(SpaFd::from(4i32), SpaFd(4));
    assert_eq!(SpaFd::from(u32::MAX), SpaFd(u32::MAX as i64));
    assert_eq!(i32::try_from(SpaFd(5)).unwrap(), 5);
    assert!(i32::try_from(SpaFd(1 << 40)).is_err());
    assert!(u32::try_from(SpaFd(-1)).is_err());
    assert_eq!(u64::try_from(SpaFd(8)).unwrap(), 8);
    assert!(u64::try_from(SpaFd(-8)).is_err());
    assert_eq!(SpaFd::try_from(7u64).unwrap(), SpaFd(7));
    assert!(SpaFd::try_from(u64::MAX).is_err());
    assert_eq!(SpaFd::try_from(1u64 << 63 >> 1).unwrap(), SpaFd(1 << 62));
    assert_eq!(isize::try_from(SpaFd(-3)).unwrap(), -3);
    assert_eq!(SpaFd::try_from(-3isize).unwrap(), SpaFd(-3));
    assert_eq!(usize::try_from(SpaFd(6)).unwrap(), 6);
    assert!(usize::try_from(SpaFd(-6)).is_err());
    assert_eq!(SpaFd::try_from(6usize).unwrap(), SpaFd(6));
    assert_eq!(i64::from(SpaFd(9)), 9);
    assert_eq!(SpaFd(-1).to_bytes(), vec![0xff; 8]);
}

#[test]
fn rectangle() {
    let r = SpaRectangle::from((640, 480));
    assert_eq!(<(u32, u32)>::from(r), (640, 480));
    assert_eq!(<[u32; 2]>::from(SpaRectangle::from([3, 4])), [3, 4]);
    assert!(r == SpaRectangle { width: 640, height: 480 });
    assert!(r != SpaRectangle { width: 480, height: 640 });
    assert_eq!(r.to_bytes(), vec![0x80, 2, 0, 0, 0xe0, 1, 0, 0]);
    let d = SpaRectangle::decode(&[0, 0x80, 2, 0, 0, 0xe0, 1, 0, 0], 1);
    assert!(d == r);
    let z = SpaRectangle::default();
    assert_eq!((z.width, z.height), (0, 0));
}

#[test]
fn pointer() {
    let p = SpaPointer::new(SpaKind::Struct, 0x1000);
    assert_eq!(p.spa_kind(), Some(SpaKind::Struct));
    assert_eq!(
        p.to_bytes(),
        vec![14, 0, 0, 0, 0, 0, 0, 0, 0, 0x10, 0, 0, 0, 0, 0, 0]
    );
    let q = SpaPointer::decode(&p.to_bytes(), 0);
    assert_eq!((q.kind, q.kind_padding, q.data), (14, [0; 4], 0x1000));
    let d = SpaPointer::default();
    assert_eq!((d.kind, d.data), (1, 0));
    let mut w = SpaPointer::default();
    w.write_bytes(&[99, 0, 0, 0, 1, 2, 3, 4, 8, 0, 0, 0, 0, 0, 0, 0]);
    assert_eq!((w.kind, w.kind_padding, w.data), (99, [1, 2, 3, 4], 8));
    assert_eq!(w.spa_kind(), None);
}

#[test]
fn none_value() {
    let n: SpaNone<i32> = SpaNone::new();
    assert_eq!(n.get(), None);
    assert!(n.as_ref().is_none());
    assert!(SpaNone::from_option(Some(5)) == Err(5));
    assert!(SpaNone::<i32>::from_option(None).is_ok());
    let c: SpaNone<u8> = n.cast();
    assert!(c == SpaNone::default());
    let o: Option<u8> = c.into();
    assert_eq!(o, None);
    assert_eq!(c.to_bytes(), Vec::<u8>::new());
    let mut m: SpaNone<u8> = SpaNone::new();
    assert!(m.as_mut().is_none());
}

#[test]
fn bool_ref_and_defaults() {
    assert!(*SpaBool(3).as_bool_ref());
    assert!(!*SpaBool(0).as_bool_ref());
    assert_eq!(SpaBool::default_value().0, 0);
    assert_eq!(SpaId::default_value().0, 0);
    assert_eq!(SpaInt::default_value().0, 0);
    assert_eq!(SpaRectangle::default_value().width, 0);
    let p = SpaPointer::default_value();
    assert_eq!((p.kind, p.kind_padding, p.data), (1, [0; 4], 0));
    assert!(SpaNone::<u8>::default_value() == SpaNone::new());
}

#[test]
fn bool_order_and_bool_comparisons() {
    assert!(SpaBool(0) < SpaBool(-4));
    assert!(SpaBool(7) > SpaBool(0));
    assert_eq!(SpaBool(3).partial_cmp(&SpaBool(1)), Some(std::cmp::Ordering::Equal));
    assert!(SpaBool(9) == true);
    assert!(false == SpaBool(0));
    assert!(SpaBool(0) != true);
    assert!(SpaBool(0) < true);
    assert!(true > SpaBool(0));
    assert_eq!(SpaBool(2).partial_cmp(&true), Some(std::cmp::Ordering::Equal));
    assert_eq!(*SpaBool(5).as_ref(), true);
    assert_eq!(*AsRef::<bool>::as_ref(&SpaBool(0)), false);
}

#[test]
fn bool_u32_conversions() {
    assert_eq!(SpaBool::from(0xffff_ffffu32).0, -1);
    assert_eq!(u32::from(SpaBool(-2)), 0xffff_fffe);
    assert_eq!(u32::from(SpaBool(1)), 1);
}
