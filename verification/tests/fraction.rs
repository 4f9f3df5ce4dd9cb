use lib::mem::AsBytes;
use lib::pod::{PrimPod, SpaFraction};
use std::cmp::Ordering;

fn f(numer: u32, denom: u32) -> SpaFraction {
    SpaFraction { numer, denom }
}

fn same(a: Option<SpaFraction>, b: Option<SpaFraction>) -> bool {
    match (a, b) {
        (Some(a), Some(b)) => a.numer == b.numer && a.denom == b.denom,
        (None, None) => true,
        _ => false,
    }
}

#[test]
fn div_rem_and_parts() {
    assert_eq!(f(7, 2).checked_div_rem(), Some((3, 1)));
    assert_eq!(f(7, 0).checked_div_rem(), None);
    assert!(same(f(7, 2).trunc(), Some(f(3, 1))));
    assert!(same(f(7, 2).fract(), Some(f(1, 2))));
    assert!(same(f(7, 2).floor(), Some(f(3, 1))));
    assert!(same(f(7, 2).ceil(), Some(f(4, 1))));
    assert!(same(f(8, 2).ceil(), Some(f(4, 1))));
    assert!(same(f(u32::MAX, 2).ceil(), Some(f(u32::MAX / 2 + 1, 1))));
    assert!(same(f(1, 0).trunc(), None));
    assert!(same(f(1, 0).fract(), None));
    assert!(same(f(1, 0).ceil(), None));
}

#[test]
fn trunc_plus_fract_is_self() {
    for (n, d) in [(7u32, 2u32), (0, 5), (9, 3), (u32::MAX, 7)] {
        let t = f(n, d).trunc().unwrap();
        let r = f(n, d).fract().unwrap();
        assert_eq!(t.denom, 1);
        assert_eq!(r.denom, d);
        assert_eq!(t.numer as u64 * r.denom as u64 + r.numer as u64, n as u64);
    }
}

#[test]
fn integers() {
    assert!(f(6, 3).is_integer());
    assert!(!f(7, 3).is_integer());
    assert!(!f(6, 0).is_integer());
    assert!(f(6, 3).is_defined());
    assert!(!f(6, 0).is_defined());
    assert_eq!(f(6, 3).to_u32(), Some(2));
    assert_eq!(f(7, 3).to_u32(), None);
    assert_eq!(f(7, 0).to_u32(), None);
    assert!(f(6, 3).eq_u32(2));
    assert!(!f(6, 3).eq_u32(3));
    assert!(!f(0, 0).eq_u32(0));
    assert!(f(u32::MAX, u32::MAX).eq_u32(1));
}

#[test]
fn flip_and_recip() {
    let g = f(2, 5).flip();
    assert_eq!((g.numer, g.denom), (5, 2));
    assert!(same(f(2, 5).recip(), Some(f(5, 2))));
    assert!(same(f(0, 5).recip(), None));
    assert!(same(f(2, 0).recip(), None));
    assert!(same(f(2, 5).recip().unwrap().recip(), Some(f(2, 5))));
}

#[test]
fn comparisons() {
    assert_eq!(f(1, 2).partial_cmp(&f(2, 4)), Some(Ordering::Equal));
    assert!(f(1, 2) == f(3, 6));
    assert!(f(0, 2) == f(0, 9));
    assert_eq!(f(1, 3).partial_cmp(&f(1, 2)), Some(Ordering::Less));
    assert_eq!(f(3, 7).partial_cmp(&f(2, 7)), Some(Ordering::Greater));
    assert_eq!(f(5, 7).partial_cmp(&f(2, 3)), Some(Ordering::Greater));
    assert_eq!(f(u32::MAX, 1).partial_cmp(&f(u32::MAX - 1, 1)), Some(Ordering::Greater));
    assert_eq!(f(1, 0).partial_cmp(&f(1, 2)), None);
    assert!(f(1, 0) != f(1, 0));
    assert!(f(1, 3) < f(1, 2));
}

#[test]
fn conversions_and_bytes() {
    let g = SpaFraction::from((30u32, 1u32));
    assert_eq!(<(u32, u32)>::from(g), (30, 1));
    assert_eq!(<[u32; 2]>::from(SpaFraction::from([1, 2])), [1, 2]);
    assert_eq!(g.to_bytes(), vec![30, 0, 0, 0, 1, 0, 0, 0]);
    let d = SpaFraction::decode(&[30, 0, 0, 0, 1, 0, 0, 0], 0);
    assert_eq!((d.numer, d.denom), (30, 1));
    let z = SpaFraction::default();
    assert_eq!((z.numer, z.denom), (0, 0));
}
