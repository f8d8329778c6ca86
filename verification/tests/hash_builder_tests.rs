use document_registry::hash_builder::Builder;
use document_registry::hash_builder::HashBuilder;
use document_registry::hash_builder::digest_of_builder;

#[test]
fn build_hash() {
    // fold two 32-byte account identifiers and digest the buffer
    let input1: [u8; 32] = [0x17; 32];
    let input2: [u8; 32] = [0x11; 32];
    let res_hash = HashBuilder::default()
        .add_segment(&input1)
        .add_segment(&input2)
        .build();
    assert_ne!(res_hash, vec![0u8; 32]);
    println!("res_hash {:?}", res_hash);
}

#[test]
fn digest_has_32_bytes_and_differs_from_buffer() {
    // the digest is a real hash: 32 bytes, and not the buffer handed in
    let builder = HashBuilder::default().add_segment(&[0xAB; 32]);
    let digest = digest_of_builder(builder);
    assert_eq!(digest.len(), 32);
    let buffer: Vec<u8> = [0xAB; 16]
        .iter()
        .copied()
        .chain([0u8; 16].iter().copied())
        .collect();
    assert_ne!(digest, buffer);
}

#[test]
fn digest_is_deterministic() {
    let a = HashBuilder::default().add_segment(&[7; 32]).build();
    let b = HashBuilder::default().add_segment(&[7; 32]).build();
    assert_eq!(a, b);
    let c = HashBuilder::default().add_segment(&[8; 32]).build();
    assert_ne!(a, c);
}

#[test]
fn add_segment_changes_the_digest() {
    let empty = HashBuilder::default().build();
    let folded = HashBuilder::default().add_segment(&[1; 32]).build();
    assert_ne!(empty, folded);
}
