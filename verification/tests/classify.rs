use sangjeom::classify::{classify, correct_sniffed};
use sangjeom::hash::content_hash;

const WEBP: &[u8] = b"RIFF\x1a\x00\x00\x00WEBPVP8L\x0d\x00\x00\x00\x2f\x00\x00\x00\x10\x07\x10\x11\x11\x88\x88\xfe\x07\x00";

const PNG: &[u8] = b"\x89PNG\r\n\x1a\n\0\0\0\rIHDR\0\0\0\x01\0\0\0\x01\x08\x06\0\0\0";

#[test]
fn a_riff_container_named_webp_is_a_webp_image() {
    assert_eq!(classify(WEBP, "picture.webp"), "image/webp");
}

#[test]
fn a_riff_container_named_webp_is_never_left_generic() {
    let other: &[u8] = b"RIFF\x04\x00\x00\x00ABCDxxxx";
    assert_ne!(classify(other, "clip.webp"), "application/x-riff");
    assert_ne!(classify(WEBP, "dir.webp"), "application/x-riff");
}

#[test]
fn the_correction_replaces_only_the_generic_riff_type() {
    assert_eq!(correct_sniffed("application/x-riff".to_string(), "a.webp"), "image/webp");
    assert_eq!(correct_sniffed("application/x-riff".to_string(), ".webp"), "image/webp");
    assert_eq!(correct_sniffed("application/x-riff".to_string(), "a.wav"), "application/x-riff");
    assert_eq!(correct_sniffed("application/x-riff".to_string(), "a.webp.bak"), "application/x-riff");
    assert_eq!(correct_sniffed("application/x-riff".to_string(), "a.WEBP"), "application/x-riff");
    assert_eq!(correct_sniffed("application/x-riff".to_string(), "webp"), "application/x-riff");
    assert_eq!(correct_sniffed("image/png".to_string(), "a.webp"), "image/png");
    assert_eq!(correct_sniffed("audio/x-wav".to_string(), "a.webp"), "audio/x-wav");
    assert_eq!(correct_sniffed("".to_string(), "a.webp"), "");
}

#[test]
fn the_extension_does_not_decide_the_type() {
    assert_eq!(classify(PNG, "picture.png"), "image/png");
    assert_eq!(classify(PNG, "picture.txt"), "image/png");
    assert_eq!(classify(PNG, "picture.webp"), "image/png");
}

#[test]
fn text_is_sniffed_as_text() {
    assert_eq!(classify(b"hello", "a.txt"), "text/plain");
}

#[test]
fn content_hash_is_the_hex_sha256() {
    assert_eq!(
        content_hash(b"hello"),
        "2cf24dba5fb0a30e26e83b2ac5b9e29e1b161e5c1fa7425e73043362938b9824"
    );
    assert_eq!(
        content_hash(b""),
        "e3b0c44298fc1c149afbf4c8996fb92427ae41e4649b934ca495991b7852b855"
    );
    assert_eq!(
        content_hash(b"abc"),
        "ba7816bf8f01cfea414140de5dae2223b00361a396177a9cb410ff61f20015ad"
    );
}
