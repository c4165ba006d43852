use wasmlib::keyspace::bytes_eq;
use wasmlib::keyspace::KeySpace;
use wasmlib::proxy::params_proxy;
use wasmlib::proxy::CallContext;
use wasmlib::proxy::Proxy;

#[test]
fn bytes_eq_compares_content() {
    assert!(bytes_eq(&[], &[]));
    assert!(bytes_eq(&[1, 2, 3], &[1, 2, 3]));
    assert!(!bytes_eq(&[1, 2, 3], &[1, 2, 4]));
    assert!(!bytes_eq(&[1, 2, 3], &[1, 2]));
}

#[test]
fn key_space_starts_empty() {
    let ks = KeySpace::new();
    assert!(!ks.is_present(b"a"));
    assert_eq!(ks.read(b"a"), None);
    assert!(!ks.is_present(b""));
}

#[test]
fn key_space_write_then_read() {
    let mut ks = KeySpace::new();
    ks.write(b"a", &[1, 2, 3]);
    ks.write(b"b", &[]);
    assert_eq!(ks.read(b"a"), Some(vec![1u8, 2, 3]));
    assert_eq!(ks.read(b"b"), Some(Vec::<u8>::new()));
    assert!(ks.is_present(b"b"));
    assert_eq!(ks.read(b"c"), None);
    ks.write(b"a", &[9]);
    assert_eq!(ks.read(b"a"), Some(vec![9u8]));
    assert_eq!(ks.read(b"b"), Some(Vec::<u8>::new()));
}

#[test]
fn key_space_delete() {
    let mut ks = KeySpace::new();
    ks.write(b"a", &[1]);
    ks.write(b"b", &[2]);
    ks.write(b"c", &[3]);
    ks.delete(b"a");
    assert_eq!(ks.read(b"a"), None);
    assert_eq!(ks.read(b"b"), Some(vec![2u8]));
    assert_eq!(ks.read(b"c"), Some(vec![3u8]));
    ks.delete(b"zz");
    assert_eq!(ks.read(b"b"), Some(vec![2u8]));
    ks.write(b"a", &[4]);
    assert_eq!(ks.read(b"a"), Some(vec![4u8]));
}

#[test]
fn child_key_is_length_prefixed() {
    let p = Proxy::new(vec![0xaa]);
    let c = p.root("tn");
    assert_eq!(c.key(), &[0xaa, 2, 0, 0, 0, 0, 0, 0, 0, 0x74, 0x6e][..]);
    assert_eq!(p.key(), &[0xaa][..]);
    let e = Proxy::new(Vec::new()).root("h\u{e9}");
    assert_eq!(e.key(), &[3, 0, 0, 0, 0, 0, 0, 0, 0x68, 0xc3, 0xa9][..]);
}

#[test]
fn distinct_paths_give_distinct_keys() {
    let root = Proxy::new(Vec::new());
    let one = root.root("tn");
    let two = root.root("t").root("n");
    let three = root.root("t");
    let four = root.root("n").root("t");
    assert_ne!(one.key(), two.key());
    assert_ne!(one.key(), three.key());
    assert_ne!(two.key(), three.key());
    assert_ne!(two.key(), four.key());
    assert_ne!(root.key(), three.key());
    assert_eq!(root.root("t").root("n").key(), two.key());
}

#[test]
fn proxy_reads_and_writes_its_key() {
    let mut ks = KeySpace::new();
    let p = Proxy::new(Vec::new()).root("a");
    assert!(!p.is_present(&ks));
    assert_eq!(p.get_bytes(&ks), None);
    p.set_bytes(&mut ks, &[5, 6]);
    assert!(p.is_present(&ks));
    assert_eq!(p.get_bytes(&ks), Some(vec![5u8, 6]));
    assert_eq!(ks.read(p.key()), Some(vec![5u8, 6]));
    assert!(!Proxy::new(Vec::new()).is_present(&ks));
    p.delete(&mut ks);
    assert!(!p.is_present(&ks));
    assert_eq!(p.get_bytes(&ks), None);
}

#[test]
fn call_context_lifecycle() {
    let mut ctx = CallContext::enter(vec![1, 2]);
    assert!(ctx.is_active());
    assert_eq!(params_proxy(&ctx).key(), &[1u8, 2][..]);
    ctx.leave();
    assert!(!ctx.is_active());
    assert!(!CallContext::idle().is_active());
}
