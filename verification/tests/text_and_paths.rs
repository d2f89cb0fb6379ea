use catalog_sync::digest::{data_url, fingerprint, hash_str, hex_lower};
use catalog_sync::mime::{guess_mime, is_indexable_image, is_listable_image};
use catalog_sync::paths::{is_in_launch_dir, is_launch_component, normalize_launch_token,
    normalize_rel_path};

#[test]
fn normalize_rel_path_strips_and_folds() {
    assert_eq!(normalize_rel_path("./images/Foo.JPG"), "images/foo.jpg");
    assert_eq!(normalize_rel_path("\\A\\B.png"), "a/b.png");
    assert_eq!(normalize_rel_path("///x"), "x");
    assert_eq!(normalize_rel_path("././a"), "a");
    // leading prefixes are stripped to a fixpoint, in any interleaving
    assert_eq!(normalize_rel_path("/./a"), "a");
    assert_eq!(normalize_rel_path("/.//./x"), "x");
    assert_eq!(normalize_rel_path(".//./a"), "a");
    assert_eq!(normalize_rel_path("plain.png"), "plain.png");
    assert_eq!(normalize_rel_path(""), "");
}

#[test]
fn launch_token_folds_case_and_accents() {
    assert_eq!(normalize_launch_token("LANÇAMENTOS"), "lancamentos");
    assert_eq!(normalize_launch_token("Lançamentos"), "lancamentos");
    assert_eq!(normalize_launch_token("lancamentos"), "lancamentos");
    assert_eq!(normalize_launch_token("Álbum"), "album");
}

#[test]
fn launch_component_recognized() {
    assert!(is_launch_component("Lançamentos"));
    assert!(is_launch_component("LANCAMENTOS"));
    assert!(!is_launch_component("images"));
    assert!(!is_launch_component("lancamentos2"));
}

#[test]
fn launch_dir_detected_in_any_component() {
    assert!(is_in_launch_dir("lancamentos/img.png"));
    assert!(is_in_launch_dir("a/Lançamentos/b.jpg"));
    assert!(is_in_launch_dir("a\\LANCAMENTOS\\b.jpg"));
    assert!(!is_in_launch_dir("images/foo.jpg"));
    assert!(!is_in_launch_dir(""));
}

#[test]
fn fingerprint_is_sha256_hex() {
    assert_eq!(
        fingerprint(b""),
        "e3b0c44298fc1c149afbf4c8996fb92427ae41e4649b934ca495991b7852b855"
    );
    assert_eq!(
        hash_str("hello world"),
        "b94d27b9934d3e08a52e52d7da7dabfac484efe37a5380ee9088f7ace2efcde9"
    );
}

#[test]
fn hex_lower_writes_two_digits_per_byte() {
    assert_eq!(hex_lower(&vec![]), "");
    assert_eq!(hex_lower(&vec![0x00u8, 0xff, 0x1a]), "00ff1a");
}

#[test]
fn data_url_carries_base64_payload() {
    assert_eq!(data_url("image/png", &[]), "data:image/png;base64,");
    assert_eq!(data_url("text/plain", b"hi"), "data:text/plain;base64,aGk=");
}

#[test]
fn guess_mime_prefers_magic_bytes() {
    let png = [0x89u8, b'P', b'N', b'G', 0x0d, 0x0a, 0x1a, 0x0a, 0, 0];
    assert_eq!(guess_mime("whatever.txt", &png), "image/png");
    let jpeg = [0xffu8, 0xd8, 0xff, 0xe0];
    assert_eq!(guess_mime("whatever.png", &jpeg), "image/jpeg");
    let webp = [b'R', b'I', b'F', b'F', 0, 0, 0, 0, b'W', b'E', b'B', b'P'];
    assert_eq!(guess_mime("x", &webp), "image/webp");
    let bmp = [b'B', b'M'];
    assert_eq!(guess_mime("x", &bmp), "image/bmp");
}

#[test]
fn guess_mime_falls_back_to_extension() {
    assert_eq!(guess_mime("photo.JPG", &[]), "image/jpeg");
    assert_eq!(guess_mime("photo.jpeg", &[]), "image/jpeg");
    assert_eq!(guess_mime("a/b/photo.png", &[]), "image/png");
    assert_eq!(guess_mime("photo.webp", &[]), "image/webp");
    assert_eq!(guess_mime("photo.bmp", &[]), "image/bmp");
    assert_eq!(guess_mime("photo.txt", &[]), "application/octet-stream");
    assert_eq!(guess_mime("noext", &[]), "application/octet-stream");
    assert_eq!(guess_mime(".hidden", &[]), "application/octet-stream");
}

#[test]
fn image_extension_allow_lists() {
    assert!(is_indexable_image("a/b.webp"));
    assert!(is_indexable_image("a/B.JPG"));
    assert!(!is_indexable_image("a/b.gif"));
    assert!(!is_indexable_image("a/b.txt"));
    assert!(is_listable_image("a/b.gif"));
    assert!(is_listable_image("a/b.png"));
    assert!(!is_listable_image("a/b.tiff"));
}
