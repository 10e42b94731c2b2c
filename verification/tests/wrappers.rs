use zc::{ByteSpan, Zc};

fn some_tail(bytes: &[u8]) -> Option<ByteSpan> {
    Some(ByteSpan::suffix(bytes, 1))
}

fn no_tail(_bytes: &[u8]) -> Option<ByteSpan> {
    None
}

fn ok_tail(bytes: &[u8]) -> Result<ByteSpan, u32> {
    Ok(ByteSpan::suffix(bytes, 1))
}

fn err_tail(_bytes: &[u8]) -> Result<ByteSpan, u32> {
    Err(9)
}

#[test]
fn test_into_option_some() {
    let data = Zc::new(vec![1u8, 2, 3], some_tail);
    let inner = data.into_option().expect("a present dependant");
    assert_eq!(inner.get(), &ByteSpan { start: 1, end: 3 });
    assert_eq!(inner.as_owned(), &[1u8, 2, 3]);
}

#[test]
fn test_into_option_none() {
    let data = Zc::new(vec![1u8, 2, 3], no_tail);
    assert!(data.into_option().is_none());
}

#[test]
fn test_into_result_ok() {
    let data = Zc::new(vec![1u8, 2, 3], ok_tail);
    match data.into_result() {
        Ok(inner) => {
            assert_eq!(inner.get(), &ByteSpan { start: 1, end: 3 });
            assert_eq!(inner.as_owned(), &[1u8, 2, 3]);
        },
        Err(_) => panic!("expected the ok container"),
    }
}

#[test]
fn test_into_result_err() {
    let data = Zc::new(vec![1u8, 2, 3], err_tail);
    match data.into_result() {
        Ok(_) => panic!("expected the err container"),
        Err(inner) => {
            assert_eq!(inner.get(), &9);
            assert_eq!(inner.as_owned(), &[1u8, 2, 3]);
        },
    }
}

#[test]
fn test_option_wrapper() {
    let data = Zc::new(vec![1u8, 2, 3], some_tail);
    let wrapped = zc::Option::from(data);
    assert!(wrapped.is_some());
    assert!(!wrapped.is_none());
    assert_eq!(wrapped.as_inner().as_owned(), &[1u8, 2, 3]);
    let inner = wrapped.unwrap();
    assert_eq!(inner.get(), &ByteSpan { start: 1, end: 3 });

    let data = Zc::new(vec![1u8, 2, 3], no_tail);
    let wrapped = zc::Option::from(data);
    assert!(wrapped.is_none());
    assert!(!wrapped.is_some());
    let inner = wrapped.into_inner();
    assert!(inner.get().is_none());
}

#[test]
fn test_result_wrapper_ok_side() {
    let data = Zc::new(vec![1u8, 2, 3], ok_tail);
    let wrapped = zc::Result::from(data);
    assert!(wrapped.is_ok());
    assert!(!wrapped.is_err());
    assert_eq!(wrapped.as_inner().as_owned(), &[1u8, 2, 3]);
    let inner = wrapped.unwrap();
    assert_eq!(inner.get(), &ByteSpan { start: 1, end: 3 });

    let data = Zc::new(vec![1u8, 2, 3], ok_tail);
    let present = zc::Result::from(data).ok().expect("the ok container");
    assert_eq!(present.get(), &ByteSpan { start: 1, end: 3 });

    let data = Zc::new(vec![1u8, 2, 3], ok_tail);
    assert!(zc::Result::from(data).err().is_none());

    let data = Zc::new(vec![1u8, 2, 3], ok_tail);
    match zc::Result::from(data).unwrap_map_err(|e: &u32| *e + 1) {
        Ok(inner) => assert_eq!(inner.get(), &ByteSpan { start: 1, end: 3 }),
        Err(_) => panic!("expected the ok container"),
    }
}

#[test]
fn test_result_wrapper_err_side() {
    let data = Zc::new(vec![1u8, 2, 3], err_tail);
    let wrapped = zc::Result::from(data);
    assert!(wrapped.is_err());
    assert!(!wrapped.is_ok());
    let inner = wrapped.unwrap_err();
    assert_eq!(inner.get(), &9);
    assert_eq!(inner.as_owned(), &[1u8, 2, 3]);

    let data = Zc::new(vec![1u8, 2, 3], err_tail);
    let absent = zc::Result::from(data).ok();
    assert!(absent.is_none());

    let data = Zc::new(vec![1u8, 2, 3], err_tail);
    let failed = zc::Result::from(data).err().expect("the err container");
    assert_eq!(failed.get(), &9);

    let data = Zc::new(vec![1u8, 2, 3], err_tail);
    match zc::Result::from(data).unwrap_map_err(|e: &u32| *e + 1) {
        Ok(_) => panic!("expected the mapped error"),
        Err(e) => assert_eq!(e, 10),
    }
}

#[test]
fn test_into_inner_returns_wrapped_container() {
    let data = Zc::new(vec![1u8, 2, 3], ok_tail);
    let wrapped = zc::Result::from(data);
    let inner = wrapped.into_inner();
    assert_eq!(inner.as_owned(), &[1u8, 2, 3]);
    assert_eq!(inner.into_owner(), vec![1u8, 2, 3]);
}
