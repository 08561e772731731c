use arena_intern::{HashKey, Intern, Interner, SliceRange, StrInterner, StrRange};

#[test]
fn consistent_str_hash_key() {
    let hash = HashKey::new_str("foobarbaz");
    assert_eq!(4247283670897481861, hash.0);
}

#[test]
fn consistent_slice_hash_key() {
    let hash = HashKey::new_slice(&[3, 1, 4, 1, 5, 9, 2, 6, 5, 4]);
    assert_eq!(8947523901814331430, hash.0);
}

#[test]
fn intern_strings() {
    let mut interner = StrInterner::default();

    let foo = interner.intern("foo");
    let empty = interner.intern("");
    let bar = interner.intern("bar");

    assert_eq!("foo", interner.lookup(foo));
    assert_eq!("", interner.lookup(empty));
    assert_eq!("bar", interner.lookup(bar));
}

#[test]
fn intern_vec() {
    let mut interner = Interner::<u32>::default();

    let range = interner.intern(vec![1, 2, 3]);
    assert_eq!(&[1, 2, 3], interner.lookup(range));

    let range = interner.intern(vec![4, 5, 6]);
    assert_eq!(&[4, 5, 6], interner.lookup(range));
}

#[test]
fn intern_vec_and_array() {
    let mut interner = Interner::<u32>::default();

    let range = interner.intern(vec![1, 2, 3]);
    assert_eq!(&[1, 2, 3], interner.lookup(range));

    let range2 = interner.intern_slice(&[1, 2, 3]);

    assert_eq!(range, range2);
}

#[test]
fn interning_duplicate_strings() {
    let mut interner = StrInterner::default();

    let foo = interner.intern("foo");
    let foo2 = interner.intern("foo");

    assert_eq!(foo, foo2);
}

#[test]
fn interning_duplicate_slices() {
    let mut interner = Interner::<u32>::default();

    let foo = interner.intern(vec![1, 2, 3]);
    let foo2 = interner.intern(vec![1, 2, 3]);

    assert_eq!(foo, foo2);
}

#[test]
fn intern_and_get_str() {
    let mut interner = StrInterner::default();

    let key = interner.intern("foo");

    assert_eq!(Some(key), interner.get("foo"));
}

#[test]
fn intern_and_get_slice() {
    let mut interner = Interner::default();

    let key = interner.intern_slice(&[1, 2, 3, 4]);

    assert_eq!(Some(key), interner.get(&[1, 2, 3, 4]));
}

#[test]
fn scenario_text_arena() {
    let mut interner = StrInterner::new();
    let foo = interner.intern("foo");
    let empty = interner.intern("");
    let bar = interner.intern("bar");
    assert_eq!(interner.lookup(foo), "foo");
    assert_eq!(interner.lookup(empty), "");
    assert_eq!(interner.lookup(bar), "bar");
    assert_eq!(interner.intern("foo"), foo);
    assert_eq!(foo, StrRange { start: 0, end: 3 });
    assert_eq!(empty, StrRange { start: 3, end: 3 });
    assert_eq!(bar, StrRange { start: 3, end: 6 });
    assert_eq!(interner.buffer_len(), 6);
}

#[test]
fn scenario_sequence_arena() {
    let mut interner = Interner::<u32>::new();
    let a = interner.intern(vec![1, 2, 3]);
    let b = interner.intern(vec![4, 5, 6]);
    assert!(a.end <= b.start || b.end <= a.start);
    assert_eq!(interner.lookup(a), &[1, 2, 3]);
    assert_eq!(interner.lookup(b), &[4, 5, 6]);
    let slice: &[u32] = &[1, 2, 3];
    assert_eq!(interner.intern(slice), a);
}

#[test]
fn text_round_trip_fresh() {
    let mut interner = StrInterner::new();
    let r = interner.intern(String::from("héllo wörld"));
    assert_eq!(interner.lookup(r), "héllo wörld");
    assert_eq!(r.len(), "héllo wörld".len());
}

#[test]
fn sequence_round_trip_fresh() {
    let mut interner = Interner::<i64>::new();
    let r = interner.intern([-7i64, 0, 9_000_000_000]);
    assert_eq!(interner.lookup(r), &[-7i64, 0, 9_000_000_000]);
}

#[test]
fn text_intern_twice_keeps_buffer() {
    let mut interner = StrInterner::new();
    let first = interner.intern("abc");
    let len = interner.buffer_len();
    let second = interner.intern(String::from("abc"));
    assert_eq!(first, second);
    assert_eq!(interner.buffer_len(), len);
}

#[test]
fn sequence_intern_twice_keeps_buffer() {
    let mut interner = Interner::<u8>::new();
    let first = interner.intern([1u8, 2, 3]);
    let len = interner.buffer_len();
    let second = interner.intern_slice(&[1u8, 2, 3]);
    assert_eq!(first, second);
    assert_eq!(interner.buffer_len(), len);
    assert_eq!(len, 3);
}

#[test]
fn text_find_before_and_after() {
    let mut interner = StrInterner::new();
    assert_eq!(interner.get("xyz"), None);
    let r = interner.intern("xyz");
    assert_eq!(interner.get("xyz"), Some(r));
    assert_eq!(interner.get("xy"), None);
}

#[test]
fn sequence_find_before_and_after() {
    let mut interner = Interner::<u16>::new();
    assert_eq!(interner.get(&[5, 6]), None);
    let r = interner.intern(vec![5u16, 6]);
    assert_eq!(interner.get(&[5, 6]), Some(r));
    assert_eq!(interner.get(&[6, 5]), None);
}

#[test]
fn text_spans_disjoint() {
    let mut interner = StrInterner::new();
    let a = interner.intern("left");
    let b = interner.intern("right");
    assert!(a.end <= b.start || b.end <= a.start);
    assert_eq!(b, StrRange { start: 4, end: 9 });
}

#[test]
fn sequence_spans_disjoint() {
    let mut interner = Interner::<i32>::new();
    let a = interner.intern_slice(&[1, 2]);
    let b = interner.intern_slice(&[2, 1]);
    assert!(a.end <= b.start || b.end <= a.start);
    assert_eq!((b.start, b.end), (2, 4));
}

#[test]
fn range_lengths() {
    let mut text = StrInterner::new();
    let r = text.intern("four");
    assert_eq!(r.len(), 4);
    assert!(!r.is_empty());
    let e = text.intern("");
    assert_eq!(e.len(), 0);
    assert!(e.is_empty());

    let mut seq = Interner::<u64>::new();
    let s = seq.intern(vec![1u64, 2, 3, 4, 5]);
    assert_eq!(s.len(), 5);
    assert!(!s.is_empty());
    let z = seq.intern(Vec::<u64>::new());
    assert_eq!(z.len(), 0);
    assert!(z.is_empty());
}

#[test]
fn slice_range_order_and_equality() {
    let mut seq = Interner::<u32>::new();
    let a = seq.intern(vec![1u32]);
    let b = seq.intern(vec![2u32, 3]);
    let a2: SliceRange<u32> = a.clone();
    assert_eq!(a, a2);
    assert_ne!(a, b);
    assert!(a < b);
    assert_eq!(a.partial_cmp(&b), Some(std::cmp::Ordering::Less));
    assert_eq!(b.partial_cmp(&a), Some(std::cmp::Ordering::Greater));
}

#[test]
fn str_range_order() {
    let x = StrRange { start: 1, end: 2 };
    let y = StrRange { start: 1, end: 5 };
    assert!(x < y);
    assert_eq!(x.cmp(&x), std::cmp::Ordering::Equal);
}

#[test]
fn fingerprints_differ_by_content() {
    assert_ne!(HashKey::new_str("foo"), HashKey::new_str("bar"));
    assert_eq!(HashKey::new_str("foo"), HashKey::new_str("foo"));
    assert_ne!(HashKey::new_slice(&[1u32, 2]), HashKey::new_slice(&[2u32, 1]));
}

#[test]
fn clone_is_independent() {
    let mut a = StrInterner::new();
    let r = a.intern("shared");
    let mut b = a.clone();
    let s = b.intern("only in b");
    assert_eq!(b.lookup(r), "shared");
    assert_eq!(b.lookup(s), "only in b");
    assert_eq!(a.get("only in b"), None);
}
