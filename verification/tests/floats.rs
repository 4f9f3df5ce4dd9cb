use lib::mem::{AsBytes, AsBytesMut};
use lib::pod::kind::SpaKind;
use lib::pod::{PrimBody, PrimPod, SpaDouble, SpaFloat, SpaHeader, SpaSlice};

#[test]
fn float_bits_and_bytes() {
    let f = SpaFloat(1.5f32.to_bits());
    assert_eq!(f.to_bytes(), 1.5f32.to_le_bytes().to_vec());
    assert_eq!(SpaFloat::decode(&1.5f32.to_le_bytes(), 0).0, 1.5f32.to_bits());
    assert_eq!(SpaFloat::size(), 4);
    assert_eq!(SpaFloat::kind(), SpaKind::FLOAT);
    assert_eq!(SpaFloat::default().0, 0);
    let mut g = SpaFloat::default_value();
    g.write_bytes(&(-2.0f32).to_le_bytes());
    assert_eq!(f32::from_bits(g.0), -2.0);
    let body = PrimBody::new(f);
    assert_eq!(body.to_bytes().len(), 8);
}

#[test]
fn double_bits_and_bytes() {
    let d = SpaDouble(0.25f64.to_bits());
    assert_eq!(d.to_bytes(), 0.25f64.to_le_bytes().to_vec());
    assert_eq!(SpaDouble::decode(&0.25f64.to_le_bytes(), 0).0, 0.25f64.to_bits());
    assert_eq!(SpaDouble::size(), 8);
    assert_eq!(SpaDouble::kind(), SpaKind::DOUBLE);
    assert_eq!(SpaDouble::default().0, 0);
}

#[test]
fn double_array() {
    let mut bytes = SpaHeader { size: 8 + 16, kind: SpaKind::ARRAY }.to_bytes();
    bytes.extend(SpaHeader { size: 8, kind: SpaKind::DOUBLE }.to_bytes());
    bytes.extend_from_slice(&1.0f64.to_le_bytes());
    bytes.extend_from_slice(&(-3.5f64).to_le_bytes());
    let (s, rest) = SpaSlice::<SpaDouble>::decode(&bytes).unwrap();
    assert!(rest.is_empty());
    let vals: Vec<f64> = s.as_prims().iter().map(|x| f64::from_bits(x.0)).collect();
    assert_eq!(vals, vec![1.0, -3.5]);
}
