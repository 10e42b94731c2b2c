use zc::{bytes_eq, moved, owner_round_trip, ByteSpan, CharSpan, Dependant, Zc};

#[derive(PartialEq, Debug)]
pub struct Tail(ByteSpan);

impl Dependant for Tail {}

fn tail(bytes: &[u8]) -> Tail {
    Tail(ByteSpan::suffix(bytes, 1))
}

#[test]
fn test_owner_round_trip_vec() {
    assert_eq!(owner_round_trip(vec![1u8, 2, 3]), vec![1u8, 2, 3]);
    assert_eq!(owner_round_trip(Vec::<u8>::new()), Vec::<u8>::new());
}

#[test]
fn test_owner_round_trip_identity_storage() {
    // A storage type is its own owner, and the conversion is the identity.
    let storage = zc::aliasable::vec::AliasableVec::from(vec![5u8, 6]);
    let back = owner_round_trip(storage);
    assert_eq!(
        zc::aliasable::vec::AliasableVec::into_unique(back),
        vec![5u8, 6]
    );
}

#[test]
fn test_owner_round_trip_string() {
    assert_eq!(owner_round_trip(String::from("hello")), String::from("hello"));
    assert_eq!(owner_round_trip(String::new()), String::new());
}

#[test]
fn test_get_idempotent() {
    let data = Zc::new(vec![1u8, 2, 3], tail);
    let first = data.get();
    let second = data.get();
    assert_eq!(first, second);
    assert_eq!(
        first.0.resolve(data.as_owned()),
        second.0.resolve(data.as_owned())
    );
}

#[test]
fn test_aliasing_stable_under_move() {
    let data = Zc::new(vec![1u8, 2, 3], tail);
    let before = data.get().0.resolve(data.as_owned()).to_vec();

    let data = moved(data);
    let boxed = Box::new(data);
    let data = *boxed;

    assert_eq!(data.get(), &Tail(ByteSpan { start: 1, end: 3 }));
    assert_eq!(data.get().0.resolve(data.as_owned()), before.as_slice());
    assert_eq!(data.into_owner(), vec![1u8, 2, 3]);
}

#[test]
fn test_empty_owner_whole_span() {
    let data = Zc::new(Vec::<u8>::new(), |bytes: &[u8]| ByteSpan::whole(bytes));
    assert_eq!(data.get(), &ByteSpan { start: 0, end: 0 });
    assert_eq!(data.get().resolve(data.as_owned()), &[] as &[u8]);
    assert_eq!(data.into_owner(), Vec::<u8>::new());
}

#[test]
fn test_empty_char_span() {
    let data = Zc::new(String::from("hi"), |s: &str| CharSpan::suffix(s, 2));
    assert_eq!(data.get(), &CharSpan { start: 2, end: 2 });
    assert_eq!(data.get().resolve(data.as_owned()), "");
}

#[test]
fn test_map_unchecked() {
    let data = Zc::new(vec![1u8, 2, 3], tail);
    let data = data.map_unchecked(|t: Tail| t.0);
    assert_eq!(data.get(), &ByteSpan { start: 1, end: 3 });
    assert_eq!(data.as_owned(), &[1u8, 2, 3]);
}

#[test]
fn test_try_map_unchecked_ok() {
    let data = Zc::new(vec![1u8, 2, 3], tail);
    let data = data
        .try_map_unchecked(|t: Tail| -> Result<ByteSpan, ()> { Ok(t.0) })
        .map_err(|_: ()| ())
        .unwrap();
    assert_eq!(data.get(), &ByteSpan { start: 1, end: 3 });
}

#[test]
fn test_try_map_unchecked_err() {
    let data = Zc::new(vec![1u8, 2, 3], tail);
    let out = data.try_map_unchecked(|_: Tail| -> Result<ByteSpan, u32> { Err(7) });
    match out {
        Ok(_) => panic!("mapping should have failed"),
        Err(e) => assert_eq!(e, 7),
    }
}

#[test]
fn test_bytes_eq() {
    assert!(bytes_eq(b"abc", b"abc"));
    assert!(!bytes_eq(b"abc", b"abd"));
    assert!(!bytes_eq(b"abc", b"ab"));
    assert!(bytes_eq(b"", b""));
}

#[test]
fn test_string_storage_contents() {
    // Fails unless the storage wrappers really hand the same characters
    // through wrapping, borrowing and unwrapping.
    let data = Zc::new(String::from("hello"), |s: &str| CharSpan::suffix(s, 0));
    assert_eq!(data.as_owned(), "hello");
    assert_eq!(data.get().resolve(data.as_owned()), "hello");
    assert_eq!(data.into_owner(), String::from("hello"));
}

#[test]
fn test_byte_span_builders() {
    let data: &[u8] = &[10, 20, 30, 40];
    let mid = ByteSpan::slice_of(data, 1, 3);
    assert_eq!(mid, ByteSpan { start: 1, end: 3 });
    assert_eq!(mid.len(), 2);
    assert_eq!(mid.resolve(data), &[20, 30]);

    let all = ByteSpan::whole(data);
    assert_eq!(all.len(), 4);
    assert_eq!(all.resolve(data), data);

    let tail = ByteSpan::suffix(data, 3);
    assert_eq!(tail.resolve(data), &[40]);
}
