//! Tests of the mock file host's upload report and its helpers.

use labrinth::file_hosting::mock::sanitize_file_name;
use labrinth::file_hosting::mock::to_hex;
use labrinth::file_hosting::mock::MockHost;

#[test]
fn upload_report_digests_known_vector() {
    let host = MockHost::new();
    let data = host.upload_file_data("text/plain", "abc.txt", &b"abc".to_vec(), 12345);
    assert_eq!(data.file_id, "MOCK_FILE_ID");
    assert_eq!(data.file_name, "abc.txt");
    assert_eq!(data.content_length, 3);
    assert_eq!(data.content_sha1, "a9993e364706816aba3e25717850c26c9cd0d89d");
    assert_eq!(
        data.content_sha512,
        "ddaf35a193617abacc417349ae20413112e6fa4e89a97ea20a9eeee64b55d39a\
         2192992a274fc1a836ba3c23a3feebbd454d4423643ce80e2a9ac94fa54ca49f"
    );
    assert_eq!(data.content_md5, None);
    assert_eq!(data.content_type, "text/plain");
    assert_eq!(data.upload_timestamp, 12345);
}

#[test]
fn upload_report_digests_empty_input() {
    let host = MockHost::new();
    let data = host.upload_file_data("application/zip", "empty", &Vec::new(), 0);
    assert_eq!(data.content_length, 0);
    assert_eq!(data.content_sha1, "da39a3ee5e6b4b0d3255bfef95601890afd80709");
    assert_eq!(
        data.content_sha512,
        "cf83e1357eefb8bdf1542850d66d8007d620e4050b5715dc83f4a921d36ce9ce\
         47d0d13c5d85f2b0ff8318d2877eec2f63b931bd47417a81a538327af927da3e"
    );
}

#[test]
fn hex_rendering_is_two_lowercase_digits_per_byte() {
    assert_eq!(to_hex(&vec![0u8, 255u8, 16u8, 1u8]), "00ff1001");
    assert_eq!(to_hex(&Vec::new()), "");
}

#[test]
fn sanitize_strips_parent_refs() {
    assert_eq!(sanitize_file_name("../../etc/passwd"), "etc/passwd");
    assert_eq!(sanitize_file_name("a/../b"), "a/b");
    assert_eq!(sanitize_file_name("plain.txt"), "plain.txt");
    assert_eq!(sanitize_file_name(".."), "..");
    assert_eq!(sanitize_file_name("..//"), "/");
}
