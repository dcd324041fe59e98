use mini_keypair_signer::signer::{bytes_equal, join_bytes};
use mini_keypair_signer::{Generator, Keypair, Signer};

fn counting_key() -> [u8; 32] {
    let mut key = [0u8; 32];
    for (i, byte) in key.iter_mut().enumerate() {
        *byte = i as u8;
    }
    key
}

#[test]
fn sign_and_verify() {
    let keypair = Keypair::generate();
    let message = b"secret message";
    let signature = keypair.sign(message);

    assert!(keypair.verify(message, &signature));
}

#[test]
fn sign_and_verify_with_different_message() {
    let keypair = Keypair::generate();
    let message1 = b"secret message";
    let message2 = b"tampered message";
    let signature1 = keypair.sign(message1);

    assert!(keypair.verify(message1, &signature1));
    assert!(!keypair.verify(message2, &signature1));
}

#[test]
fn sign_and_verify_with_different_keypair() {
    let keypair1 = Keypair::generate();
    let keypair2 = Keypair::generate();
    let message = b"secret message";
    let signature1 = keypair1.sign(message);

    assert!(!keypair2.verify(message, &signature1));
}

#[test]
fn sign_and_verify_with_different_signature() {
    let keypair = Keypair::generate();
    let message = b"secret message";
    let signature1 = keypair.sign(message);
    let signature2 = keypair.sign(message);

    assert!(keypair.verify(message, &signature1));
    assert!(keypair.verify(message, &signature2));
}

#[test]
fn tag_is_sha256_of_message_then_private_key() {
    let keypair = Keypair::from_private_key(counting_key());
    let expected =
        hex::decode("ee9d2721d2007cc242e96d1563f0cc23ff8c2e3c501810bf61f09a37795b8775").unwrap();

    assert_eq!(keypair.sign(b"secret message"), expected);
}

#[test]
fn tag_under_the_zero_key() {
    let keypair = Keypair::from_private_key([0u8; 32]);
    let expected =
        hex::decode("1b23f860db9bd9eccc26b36eaa3b6c223ef34539cdef01b240ad76ee45e176c1").unwrap();

    assert_eq!(keypair.sign(b"abc"), expected);
    assert!(keypair.verify(b"abc", &expected));
}

#[test]
fn tag_of_the_empty_message_is_the_digest_of_the_key() {
    let keypair = Keypair::from_private_key(counting_key());
    let signature = keypair.sign(b"");

    assert_eq!(signature.len(), 32);
    assert_eq!(signature, keypair.public_key.to_vec());
    assert!(keypair.verify(b"", &signature));
}

#[test]
fn tag_is_always_32_bytes() {
    let keypair = Keypair::generate();

    assert_eq!(keypair.sign(b"").len(), 32);
    assert_eq!(keypair.sign(b"secret message").len(), 32);
    assert_eq!(keypair.sign(&[7u8; 1000]).len(), 32);
}

#[test]
fn signing_twice_gives_the_same_tag() {
    let keypair = Keypair::generate();
    let again = Keypair::from_private_key(keypair.private_key);

    assert_eq!(keypair.sign(b"secret message"), keypair.sign(b"secret message"));
    assert_eq!(keypair.sign(b"secret message"), again.sign(b"secret message"));
}

#[test]
fn tag_of_another_message_is_rejected() {
    let keypair = Keypair::from_private_key(counting_key());
    let signature = keypair.sign(b"secret message");

    assert!(keypair.verify(b"secret message", &signature));
    assert!(!keypair.verify(b"secret messagf", &signature));
    assert!(!keypair.verify(b"secret messag", &signature));
    assert!(!keypair.verify(b"", &signature));
}

#[test]
fn tag_of_another_key_is_rejected() {
    let keypair1 = Keypair::from_private_key(counting_key());
    let keypair2 = Keypair::from_private_key([0u8; 32]);
    let signature1 = keypair1.sign(b"secret message");

    assert!(keypair1.verify(b"secret message", &signature1));
    assert!(!keypair2.verify(b"secret message", &signature1));
}

#[test]
fn tag_of_the_wrong_length_is_rejected() {
    let keypair = Keypair::from_private_key(counting_key());
    let signature = keypair.sign(b"secret message");
    let mut longer = signature.clone();
    longer.push(0);

    assert!(!keypair.verify(b"secret message", &[]));
    assert!(!keypair.verify(b"secret message", &signature[..31]));
    assert!(!keypair.verify(b"secret message", &longer));
}

#[test]
fn tag_with_one_byte_changed_is_rejected() {
    let keypair = Keypair::from_private_key(counting_key());
    let mut signature = keypair.sign(b"secret message");
    signature[31] ^= 1;

    assert!(!keypair.verify(b"secret message", &signature));
}

#[test]
fn public_key_plays_no_part_in_signing() {
    let keypair = Keypair::from_private_key(counting_key());
    let forged = Keypair { private_key: keypair.private_key, public_key: [0u8; 32] };
    let signature = keypair.sign(b"secret message");

    assert_eq!(forged.sign(b"secret message"), signature);
    assert!(forged.verify(b"secret message", &signature));
}

#[test]
fn generate_sign_verify_and_tamper() {
    let keypair = Keypair::generate();
    let tag = keypair.sign(b"secret message");

    assert_eq!(tag.len(), 32);
    assert!(keypair.verify(b"secret message", &tag));
    assert!(!keypair.verify(b"tampered message", &tag));
}

#[test]
fn join_bytes_puts_the_tail_after_the_head() {
    assert_eq!(join_bytes(&[1, 2], &[3]), vec![1, 2, 3]);
    assert_eq!(join_bytes(&[], &[3, 4]), vec![3, 4]);
    assert_eq!(join_bytes(&[1, 2], &[]), vec![1, 2]);
    assert_eq!(join_bytes(&[], &[]), Vec::<u8>::new());
}

#[test]
fn bytes_equal_compares_length_and_content() {
    assert!(bytes_equal(&[], &[]));
    assert!(bytes_equal(&[1, 2, 3], &[1, 2, 3]));
    assert!(!bytes_equal(&[1, 2, 3], &[1, 2, 4]));
    assert!(!bytes_equal(&[0, 2, 3], &[1, 2, 3]));
    assert!(!bytes_equal(&[1, 2], &[1, 2, 3]));
    assert!(!bytes_equal(&[1, 2, 3], &[1, 2]));
}
