use lib::mem::AsBytes;
use lib::pod::kind::SpaKind;
use lib::pod::{PodError, SpaBool, SpaHeader, SpaInt, SpaLong, SpaNone, SpaPointer, SpaSlice, MAX_SIZE};

fn array_bytes(pod_size: u32, elem_size: u32, elem_kind: u32, body: &[u8]) -> Vec<u8> {
    let mut v = SpaHeader { size: pod_size, kind: SpaKind::ARRAY }.to_bytes();
    v.extend(SpaHeader { size: elem_size, kind: elem_kind }.to_bytes());
    v.extend_from_slice(body);
    v
}

#[test]
fn decode_int_array() {
    let mut bytes = array_bytes(8 + 12, 4, SpaKind::INT, &[1, 0, 0, 0, 2, 0, 0, 0, 0xff, 0xff, 0xff, 0xff]);
    bytes.extend_from_slice(&[0, 0, 0, 0]); // padding to 16
    bytes.extend_from_slice(&[42]);
    let (s, rest) = SpaSlice::<SpaInt>::decode(&bytes).unwrap();
    assert_eq!(s.len(), 3);
    let vals: Vec<i32> = s.as_prims().iter().map(|x| x.0).collect();
    assert_eq!(vals, vec![1, 2, -1]);
    assert_eq!(s.index(2).0, -1);
    assert_eq!(rest, &[42]);
    assert!(!s.is_empty());
}

#[test]
fn decode_round_trips_through_bytes() {
    let s = SpaSlice::<SpaLong>::from_prims(&[SpaLong(5), SpaLong(-5)]).unwrap();
    let body = s.to_bytes();
    assert_eq!(body.len(), 16);
    let mut bytes = array_bytes(8 + 16, 8, SpaKind::LONG, &body);
    bytes.extend_from_slice(&[7, 7]);
    let (t, rest) = SpaSlice::<SpaLong>::decode(&bytes).unwrap();
    assert_eq!(t.as_prims().iter().map(|x| x.0).collect::<Vec<_>>(), vec![5, -5]);
    assert_eq!(rest, &[7, 7]);
}

#[test]
fn decode_errors() {
    assert_eq!(SpaSlice::<SpaInt>::decode(&[0; 15]).err(), Some(PodError::InsufficientSpace));
    let wrong_pod = {
        let mut v = SpaHeader { size: 8, kind: SpaKind::STRUCT }.to_bytes();
        v.extend(SpaHeader { size: 4, kind: SpaKind::INT }.to_bytes());
        v
    };
    assert_eq!(SpaSlice::<SpaInt>::decode(&wrong_pod).err(), Some(PodError::InvalidKind));
    let wrong_elem = array_bytes(8, 4, SpaKind::BOOL, &[]);
    assert_eq!(SpaSlice::<SpaInt>::decode(&wrong_elem).err(), Some(PodError::InvalidKind));
    let too_big = array_bytes(MAX_SIZE + 1, 4, SpaKind::INT, &[]);
    assert_eq!(SpaSlice::<SpaInt>::decode(&too_big).err(), Some(PodError::InvalidSize));
    let bad_elem_size = array_bytes(8, 8, SpaKind::INT, &[]);
    assert_eq!(SpaSlice::<SpaInt>::decode(&bad_elem_size).err(), Some(PodError::InvalidSize));
    let no_room_for_elem_header = array_bytes(4, 4, SpaKind::INT, &[]);
    assert_eq!(
        SpaSlice::<SpaInt>::decode(&no_room_for_elem_header).err(),
        Some(PodError::InvalidSize)
    );
    let ragged = array_bytes(8 + 6, 4, SpaKind::INT, &[0; 8]);
    assert_eq!(SpaSlice::<SpaInt>::decode(&ragged).err(), Some(PodError::InvalidSize));
    let short = array_bytes(8 + 8, 4, SpaKind::INT, &[0; 7]);
    assert_eq!(SpaSlice::<SpaInt>::decode(&short).err(), Some(PodError::InsufficientSpace));
    let unpadded = array_bytes(8 + 4, 4, SpaKind::INT, &[0; 4]);
    assert_eq!(SpaSlice::<SpaInt>::decode(&unpadded).err(), Some(PodError::InsufficientSpace));
}

#[test]
fn zero_sized_elements() {
    let empty = array_bytes(8, 0, SpaKind::NONE, &[]);
    let (s, rest) = SpaSlice::<SpaNone<u8>>::decode(&empty).unwrap();
    assert_eq!(s.len(), 0);
    assert!(rest.is_empty());
    let nonempty = array_bytes(16, 0, SpaKind::NONE, &[0; 8]);
    assert_eq!(SpaSlice::<SpaNone<u8>>::decode(&nonempty).err(), Some(PodError::InvalidSize));
    assert_eq!(SpaSlice::<SpaNone<u8>>::max_len(), u32::MAX);
}

#[test]
fn lengths_and_construction() {
    assert_eq!(SpaSlice::<SpaInt>::max_len(), MAX_SIZE / 4);
    assert_eq!(SpaSlice::<SpaPointer>::max_len(), MAX_SIZE / 16);
    let e = SpaSlice::<SpaBool>::empty();
    assert_eq!(e.len(), 0);
    assert!(e.is_empty());
    assert!(SpaSlice::<SpaBool>::default().is_empty());
    let s = SpaSlice::<SpaBool>::from_prims(&[1u32, 0u32, 7u32]).unwrap();
    assert_eq!(s.as_prims().iter().map(|b| b.0).collect::<Vec<_>>(), vec![1, 0, 7]);
    assert_eq!(s.to_bytes(), vec![1, 0, 0, 0, 0, 0, 0, 0, 7, 0, 0, 0]);
}

#[test]
fn set_elements() {
    let mut s = SpaSlice::<SpaInt>::from_prims(&[SpaInt(1), SpaInt(2)]).unwrap();
    s.set(1, SpaInt(9));
    assert_eq!(s.as_prims().iter().map(|x| x.0).collect::<Vec<_>>(), vec![1, 9]);
    assert_eq!(s.len(), 2);
}

#[test]
fn pointer_array() {
    let p = SpaPointer::new(SpaKind::Object, 0xdead_beef);
    let mut body = p.to_bytes();
    body.extend(SpaPointer::default().to_bytes());
    let bytes = array_bytes(8 + 32, 16, SpaKind::POINTER, &body);
    let (s, rest) = SpaSlice::<SpaPointer>::decode(&bytes).unwrap();
    assert_eq!(s.len(), 2);
    assert_eq!(s.index(0).data, 0xdead_beef);
    assert_eq!(s.index(1).kind, SpaKind::NONE);
    assert!(rest.is_empty());
}

#[test]
fn range_of_elements() {
    let s = SpaSlice::<SpaInt>::from_prims(&[SpaInt(1), SpaInt(2), SpaInt(3), SpaInt(4)]).unwrap();
    let mid = s.index_range(1, 3);
    assert_eq!(mid.as_prims().iter().map(|x| x.0).collect::<Vec<_>>(), vec![2, 3]);
    assert!(s.index_range(2, 2).is_empty());
    assert_eq!(s.index_range(0, 4).len(), 4);
}

#[test]
fn decode_mut_writes_in_place() {
    let mut bytes = array_bytes(8 + 12, 4, SpaKind::INT, &[1, 0, 0, 0, 2, 0, 0, 0, 3, 0, 0, 0]);
    bytes.extend_from_slice(&[0xaa, 0xbb, 0xcc, 0xdd]); // padding to 16
    bytes.extend_from_slice(&[5, 6]);
    {
        let (mut s, rest) = SpaSlice::<SpaInt>::decode_mut(&mut bytes).unwrap();
        assert_eq!(s.len(), 3);
        assert!(!s.is_empty());
        assert_eq!(s.index(1).0, 2);
        s.set(1, SpaInt(-2));
        assert_eq!(s.index(1).0, -2);
        assert_eq!(s.to_slice().as_prims().iter().map(|x| x.0).collect::<Vec<_>>(), vec![1, -2, 3]);
        assert_eq!(rest, &[5, 6]);
        rest[0] = 50;
    }
    assert_eq!(&bytes[16..28], &[1, 0, 0, 0, 0xfe, 0xff, 0xff, 0xff, 3, 0, 0, 0]);
    assert_eq!(&bytes[28..32], &[0xaa, 0xbb, 0xcc, 0xdd]);
    assert_eq!(&bytes[32..], &[50, 6]);
    let (s, _) = SpaSlice::<SpaInt>::decode(&bytes).unwrap();
    assert_eq!(s.as_prims().iter().map(|x| x.0).collect::<Vec<_>>(), vec![1, -2, 3]);
}

#[test]
fn decode_mut_errors_leave_bytes() {
    let mut short = array_bytes(8 + 8, 4, SpaKind::INT, &[0; 7]);
    assert_eq!(SpaSlice::<SpaInt>::decode_mut(&mut short).err(), Some(PodError::InsufficientSpace));
    let mut wrong = array_bytes(8, 4, SpaKind::BOOL, &[]);
    assert_eq!(SpaSlice::<SpaInt>::decode_mut(&mut wrong).err(), Some(PodError::InvalidKind));
    let mut ragged = array_bytes(8 + 6, 4, SpaKind::INT, &[0; 8]);
    assert_eq!(SpaSlice::<SpaInt>::decode_mut(&mut ragged).err(), Some(PodError::InvalidSize));
    assert_eq!(ragged, array_bytes(8 + 6, 4, SpaKind::INT, &[0; 8]));
}
