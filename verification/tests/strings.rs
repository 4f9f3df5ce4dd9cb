use lib::pod::{NulSearch, PodError, SpaStr};

#[test]
fn search_modes() {
    assert_eq!(NulSearch::default(), NulSearch::WithNul);
    assert_eq!(NulSearch::WithNul.search(b"abc\0"), Ok(3));
    assert_eq!(NulSearch::UntilNul.search(b"abc\0"), Ok(3));
    assert_eq!(NulSearch::UntilNul.search(b"ab\0c\0"), Ok(2));
    assert_eq!(
        NulSearch::WithNul.search(b"ab\0c\0"),
        Err(PodError::InteriorNul { position: 2 })
    );
    assert_eq!(NulSearch::WithNul.search(b"abc"), Err(PodError::NotNulTerminated));
    assert_eq!(NulSearch::UntilNul.search(b""), Err(PodError::NotNulTerminated));
    assert_eq!(NulSearch::WithNul.search(b"\0"), Ok(0));
    let mut buf = *b"x\0y";
    assert_eq!(NulSearch::UntilNul.search_mut(&mut buf), Ok(1));
    assert_eq!(&buf, b"x\0y");
}

#[test]
fn spa_str() {
    let s = SpaStr::from_c_str(b"hello\0").unwrap();
    assert_eq!(s.size(), 6);
    assert_eq!(s.len(), 5);
    assert!(!s.is_empty());
    assert_eq!(s.as_bytes(), b"hello\0");
    assert_eq!(s.as_body(), b"hello");
    assert_eq!(s.to_str(), Ok("hello\0"));
    assert_eq!(s.to_body_str(), Ok("hello"));
    let e = SpaStr::from_c_str(b"\0").unwrap();
    assert!(e.is_empty());
    assert_eq!(e.len(), 0);
    assert_eq!(e.to_body_str(), Ok(""));
}

#[test]
fn spa_str_invalid_utf8() {
    let s = SpaStr::from_c_str(&[0xff, 0xfe, 0]).unwrap();
    assert!(s.to_str().is_err());
    assert!(s.to_body_str().is_err());
    assert_eq!(s.len(), 2);
}

#[test]
fn str_and_body_str_agree() {
    let s = SpaStr::from_c_str("h\u{e9}llo \u{1f600}\0".as_bytes()).unwrap();
    let body = s.to_body_str().unwrap();
    let all = s.to_str().unwrap();
    assert_eq!(format!("{}\0", body), all);
    assert_eq!(body.len(), s.len() as usize);
    assert!(!body.contains('\0'));
    let cut = SpaStr::from_c_str(&[b'a', 0xc3, 0]).unwrap();
    assert!(cut.to_str().is_err());
    assert!(cut.to_body_str().is_err());
}
