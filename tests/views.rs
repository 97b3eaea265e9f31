use endpoint_sec::event_lw_session_unlock::{EventLwSessionUnlock, RawLwSessionUnlock};
use endpoint_sec::event_setextattr::{EventSetExtAttr, RawSetExtAttr};
use endpoint_sec::event_setgid::{EventSetgid, RawSetgid};
use endpoint_sec::file::{File, RawFile};
use endpoint_sec::kind::{
    accessor_names, classification, classify, traits_of, Classification, EventKind, TypeTraits,
};
use endpoint_sec::value::{
    bytes_equal, debug_record, encode_flag, encode_record, encode_text, encode_unsigned,
    hash_parts, push_decimal, push_quoted, FNV_OFFSET,
};

fn unlock(name: &str, id: u32) -> RawLwSessionUnlock {
    RawLwSessionUnlock { username: name.as_bytes().to_vec(), graphical_session_id: id }
}

fn setextattr(attr: &str, path: &str) -> RawSetExtAttr {
    RawSetExtAttr {
        target: RawFile { path: path.as_bytes().to_vec(), path_truncated: false },
        extattr: attr.as_bytes().to_vec(),
        reserved: [0u8; 64],
    }
}

fn text(v: Vec<u8>) -> String {
    String::from_utf8(v).unwrap()
}

#[test]
fn session_unlock_identical_records() {
    let a = unlock("alice", 7);
    let b = unlock("alice", 7);
    let x = EventLwSessionUnlock::new(&a);
    let y = EventLwSessionUnlock::new(&b);
    assert_eq!(x.username(), b"alice");
    assert_eq!(x.graphical_session_id(), 7);
    assert!(x == y);
    assert_eq!(x.value_hash(), y.value_hash());
    assert_eq!(
        text(x.debug_repr()),
        "EventLwSessionUnlock { username: \"alice\", graphical_session_id: 7 }"
    );
}

#[test]
fn session_unlock_differs() {
    let a = unlock("alice", 7);
    let b = unlock("alice", 8);
    let c = unlock("bob", 7);
    let x = EventLwSessionUnlock::new(&a);
    assert!(x != EventLwSessionUnlock::new(&b));
    assert!(x != EventLwSessionUnlock::new(&c));
    assert_ne!(x.value_hash(), EventLwSessionUnlock::new(&b).value_hash());
}

#[test]
fn setgid_debug_and_padding() {
    let a = RawSetgid { gid: 501, reserved: [0u8; 64] };
    let mut reserved = [0u8; 64];
    reserved[13] = 0xaa;
    let b = RawSetgid { gid: 501, reserved };
    let x = EventSetgid::new(&a);
    let y = EventSetgid::new(&b);
    assert_eq!(x.gid(), 501);
    assert_eq!(text(x.debug_repr()), "EventSetgid { gid: 501 }");
    assert!(x == y);
    assert_eq!(x.value_hash(), y.value_hash());
    assert_eq!(x.debug_repr(), y.debug_repr());
    let c = RawSetgid { gid: 502, reserved: [0u8; 64] };
    assert!(x != EventSetgid::new(&c));
}

#[test]
fn setextattr_equality_is_recursive() {
    let a = setextattr("com.example.attr", "/tmp/f");
    let b = setextattr("com.example.attr", "/tmp/f");
    let c = setextattr("com.example.attr", "/tmp/g");
    let d = setextattr("com.example.other", "/tmp/f");
    let mut e = setextattr("com.example.attr", "/tmp/f");
    e.target.path_truncated = true;
    let x = EventSetExtAttr::new(&a);
    assert_eq!(x.extattr(), b"com.example.attr");
    assert_eq!(x.target().path(), b"/tmp/f");
    assert!(!x.target().path_truncated());
    assert!(x == EventSetExtAttr::new(&b));
    assert_eq!(x.value_hash(), EventSetExtAttr::new(&b).value_hash());
    assert!(x != EventSetExtAttr::new(&c));
    assert!(x != EventSetExtAttr::new(&d));
    assert!(x != EventSetExtAttr::new(&e));
    assert!(x.target() != EventSetExtAttr::new(&e).target());
}

#[test]
fn setextattr_padding_unobserved() {
    let a = setextattr("com.example.attr", "/tmp/f");
    let mut b = setextattr("com.example.attr", "/tmp/f");
    b.reserved[63] = 1;
    let x = EventSetExtAttr::new(&a);
    let y = EventSetExtAttr::new(&b);
    assert!(x == y);
    assert_eq!(x.value_hash(), y.value_hash());
}

#[test]
fn setextattr_debug() {
    let a = setextattr("com.example.attr", "/tmp/f");
    let x = EventSetExtAttr::new(&a);
    assert_eq!(
        text(x.debug_repr()),
        "EventSetExtAttr { extattr: \"com.example.attr\", target: File { path: \"/tmp/f\", path_truncated: false } }"
    );
}

#[test]
fn file_debug_and_hash() {
    let f = RawFile { path: b"/a".to_vec(), path_truncated: true };
    let v = File::new(&f);
    assert_eq!(text(v.debug_repr()), "File { path: \"/a\", path_truncated: true }");
    let parts = v.hash_parts();
    assert_eq!(parts, vec![b"s2:/a".to_vec(), b"b1".to_vec()]);
    assert_eq!(v.value_hash(), hash_parts(&parts));
}

#[test]
fn accessors_repeat() {
    let a = unlock("alice", 7);
    let x = EventLwSessionUnlock::new(&a);
    assert_eq!(x.username(), x.username());
    assert_eq!(x.graphical_session_id(), x.graphical_session_id());
    assert_eq!(x.value_hash(), x.value_hash());
    assert_eq!(x.debug_repr(), x.debug_repr());
    let s = setextattr("k", "/p");
    let y = EventSetExtAttr::new(&s);
    assert!(y.target() == y.target());
}

#[test]
fn declared_order_changes_hash() {
    let a = unlock("alice", 7);
    let x = EventLwSessionUnlock::new(&a);
    let parts = x.hash_parts();
    assert_eq!(parts, vec![b"s5:alice".to_vec(), b"u7;".to_vec()]);
    let swapped = vec![parts[1].clone(), parts[0].clone()];
    assert_eq!(x.value_hash(), hash_parts(&parts));
    assert_ne!(hash_parts(&swapped), hash_parts(&parts));

    let s = setextattr("com.example.attr", "/tmp/f");
    let y = EventSetExtAttr::new(&s);
    let parts = y.hash_parts();
    let swapped = vec![parts[1].clone(), parts[0].clone()];
    assert_ne!(hash_parts(&swapped), y.value_hash());
}

#[test]
fn fnv_known_values() {
    assert_eq!(hash_parts(&vec![]), FNV_OFFSET);
    assert_eq!(hash_parts(&vec![vec![]]), 0xcbf29ce484222325);
    assert_eq!(hash_parts(&vec![b"a".to_vec()]), 0xaf63dc4c8601ec8c);
    assert_eq!(hash_parts(&vec![b"foo".to_vec()]), 0xdcb27518fed9d577);
    assert_eq!(hash_parts(&vec![b"f".to_vec(), b"oo".to_vec()]), 0xdcb27518fed9d577);
}

#[test]
fn decimal_rendering() {
    let mut out = Vec::new();
    push_decimal(&mut out, 0);
    assert_eq!(out, b"0");
    let mut out = b"x".to_vec();
    push_decimal(&mut out, u64::MAX);
    assert_eq!(text(out), "x18446744073709551615");
    let raw = RawSetgid { gid: u32::MAX, reserved: [0u8; 64] };
    assert_eq!(text(EventSetgid::new(&raw).debug_repr()), "EventSetgid { gid: 4294967295 }");
}

#[test]
fn quoting_escapes() {
    let mut out = Vec::new();
    push_quoted(&mut out, b"a\"b\\c\xff\n");
    assert_eq!(text(out), "\"a\\\"b\\\\c\\xff\\x0a\"");
    let mut out = Vec::new();
    push_quoted(&mut out, b"");
    assert_eq!(out, b"\"\"");
    let raw = RawLwSessionUnlock { username: vec![], graphical_session_id: 0 };
    assert_eq!(
        text(EventLwSessionUnlock::new(&raw).debug_repr()),
        "EventLwSessionUnlock { username: \"\", graphical_session_id: 0 }"
    );
}

#[test]
fn codes() {
    assert_eq!(encode_unsigned(42), b"u42;");
    assert_eq!(encode_text(b""), b"s0:");
    assert_eq!(encode_text(b"hi"), b"s2:hi");
    assert_eq!(encode_flag(false), b"b0");
    assert_eq!(encode_record(&vec![b"u1;".to_vec(), b"b1".to_vec()]), b"ru1;b1e");
    assert_eq!(encode_record(&vec![]), b"re");
}

#[test]
fn record_rendering() {
    assert_eq!(text(debug_record("Empty", &vec![], &vec![])), "Empty");
    let names = vec!["a", "b", "c"];
    let values = vec![b"1".to_vec(), b"2".to_vec(), b"3".to_vec()];
    assert_eq!(text(debug_record("R", &names, &values)), "R { a: 1, b: 2, c: 3 }");
}

#[test]
fn compare_bytes() {
    assert!(bytes_equal(b"", b""));
    assert!(bytes_equal(b"abc", b"abc"));
    assert!(!bytes_equal(b"abc", b"abd"));
    assert!(!bytes_equal(b"ab", b"abc"));
}

#[test]
fn registered_names() {
    assert_eq!(accessor_names(EventKind::Setgid), vec!["gid"]);
    assert_eq!(
        accessor_names(EventKind::LwSessionUnlock),
        vec!["username", "graphical_session_id"]
    );
    assert_eq!(accessor_names(EventKind::SetExtAttr), vec!["extattr", "target"]);
}

#[test]
fn classification_table() {
    for kind in [EventKind::LwSessionUnlock, EventKind::SetExtAttr, EventKind::Setgid] {
        assert_eq!(classification(kind), Classification { transferable: true, shareable: true });
        assert!(!traits_of(kind).thread_affine);
    }
    let affine = TypeTraits {
        interior_mutability: false,
        thread_affine: true,
        thread_local_state: false,
        read_only_accessors: true,
    };
    assert_eq!(classify(affine), Classification { transferable: false, shareable: false });
    let cell = TypeTraits { interior_mutability: true, ..affine };
    let cell = TypeTraits { thread_affine: false, ..cell };
    assert!(!classify(cell).transferable);
    let writer = TypeTraits {
        interior_mutability: false,
        thread_affine: false,
        thread_local_state: false,
        read_only_accessors: false,
    };
    assert_eq!(classify(writer), Classification { transferable: true, shareable: false });
}

fn is_send<T: Send>() {}
fn is_sync<T: Sync>() {}

#[test]
fn views_cross_threads() {
    is_send::<EventLwSessionUnlock<'static>>();
    is_sync::<EventLwSessionUnlock<'static>>();
    is_send::<EventSetExtAttr<'static>>();
    is_sync::<EventSetExtAttr<'static>>();
    is_send::<EventSetgid<'static>>();
    is_sync::<EventSetgid<'static>>();
    is_send::<File<'static>>();
    is_sync::<File<'static>>();
}
