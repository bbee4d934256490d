//! The sink that fingerprints are written into.

use overlays::Hasher;

#[test]
fn equal_writes_give_equal_digests() {
    let mut first = Hasher::new();
    let mut second = Hasher::new();
    for sink in [&mut first, &mut second] {
        sink.write(&[1, 2, 3]);
        sink.write(&[]);
        sink.write(&[255]);
    }
    assert_eq!(first.finish(), second.finish());
}

#[test]
fn fresh_sinks_agree() {
    assert_eq!(Hasher::new().finish(), Hasher::new().finish());
}

#[test]
fn finish_does_not_disturb_the_sink() {
    let mut sink = Hasher::new();
    sink.write(b"abc");
    let early = sink.finish();
    assert_eq!(sink.finish(), early);
    sink.write(b"def");
    let mut expected = Hasher::new();
    expected.write(b"abc");
    expected.write(b"def");
    assert_eq!(sink.finish(), expected.finish());
}

#[test]
fn different_writes_give_different_digests() {
    let mut first = Hasher::new();
    first.write(&[1, 2, 3]);
    let mut second = Hasher::new();
    second.write(&[1, 2, 4]);
    assert_ne!(first.finish(), second.finish());
    assert_ne!(first.finish(), Hasher::new().finish());
}

#[test]
fn order_of_writes_matters() {
    let mut first = Hasher::new();
    first.write(b"ab");
    first.write(b"cd");
    let mut second = Hasher::new();
    second.write(b"cd");
    second.write(b"ab");
    assert_ne!(first.finish(), second.finish());
}
