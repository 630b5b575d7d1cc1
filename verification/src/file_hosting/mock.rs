//! A mock file host: it computes everything a real backend would report
//! about an uploaded file — content digests, length, metadata — while the
//! storage itself is left to the caller.

use vstd::prelude::*;
use vstd::string::StrSliceExecFns;
use vstd::string::StringExecFns;

use sha1::Digest;

use super::UploadFileData;

verus! {

/// The SHA-1 digest (20 bytes) of a byte string.  Determined by the bytes
/// alone.
pub uninterp spec fn sha1_digest(bytes: Seq<u8>) -> Seq<u8>;

/// The SHA-512 digest (64 bytes) of a byte string.  Determined by the bytes
/// alone.
pub uninterp spec fn sha512_digest(bytes: Seq<u8>) -> Seq<u8>;

/// Relies on `sha1::Sha1::digest`: the digest is 20 bytes and depends on the
/// input bytes alone.
#[verifier::external_body]
fn sha1_digest_bytes(bytes: &Vec<u8>) -> (r: Vec<u8>)
    ensures
        r@ == sha1_digest(bytes@),
        r@.len() == 20,
{
    sha1::Sha1::digest(bytes.as_slice()).to_vec()
}

/// Relies on `sha2::Sha512::digest`: the digest is 64 bytes and depends on
/// the input bytes alone.
#[verifier::external_body]
fn sha512_digest_bytes(bytes: &Vec<u8>) -> (r: Vec<u8>)
    ensures
        r@ == sha512_digest(bytes@),
        r@.len() == 64,
{
    sha2::Sha512::digest(bytes.as_slice()).to_vec()
}

/// The lower-case hexadecimal digit of a value below sixteen.
pub open spec fn hex_digit(n: int) -> char {
    if n == 0 {
        '0'
    } else if n == 1 {
        '1'
    } else if n == 2 {
        '2'
    } else if n == 3 {
        '3'
    } else if n == 4 {
        '4'
    } else if n == 5 {
        '5'
    } else if n == 6 {
        '6'
    } else if n == 7 {
        '7'
    } else if n == 8 {
        '8'
    } else if n == 9 {
        '9'
    } else if n == 10 {
        'a'
    } else if n == 11 {
        'b'
    } else if n == 12 {
        'c'
    } else if n == 13 {
        'd'
    } else if n == 14 {
        'e'
    } else {
        'f'
    }
}

/// The lower-case hexadecimal rendering of a byte string: two digits per
/// byte, high nibble first.
pub open spec fn hex_of(bytes: Seq<u8>) -> Seq<char> {
    Seq::new(
        bytes.len() * 2,
        |i: int|
            if i % 2 == 0 {
                hex_digit(bytes[i / 2] as int / 16)
            } else {
                hex_digit(bytes[i / 2] as int % 16)
            },
    )
}

fn hex_digit_str(n: u8) -> (r: &'static str)
    requires
        n < 16,
    ensures
        r@ == seq![hex_digit(n as int)],
{
    proof {
        reveal_strlit("0");
        reveal_strlit("1");
        reveal_strlit("2");
        reveal_strlit("3");
        reveal_strlit("4");
        reveal_strlit("5");
        reveal_strlit("6");
        reveal_strlit("7");
        reveal_strlit("8");
        reveal_strlit("9");
        reveal_strlit("a");
        reveal_strlit("b");
        reveal_strlit("c");
        reveal_strlit("d");
        reveal_strlit("e");
        reveal_strlit("f");
    }
    let r: &'static str = if n == 0 {
        "0"
    } else if n == 1 {
        "1"
    } else if n == 2 {
        "2"
    } else if n == 3 {
        "3"
    } else if n == 4 {
        "4"
    } else if n == 5 {
        "5"
    } else if n == 6 {
        "6"
    } else if n == 7 {
        "7"
    } else if n == 8 {
        "8"
    } else if n == 9 {
        "9"
    } else if n == 10 {
        "a"
    } else if n == 11 {
        "b"
    } else if n == 12 {
        "c"
    } else if n == 13 {
        "d"
    } else if n == 14 {
        "e"
    } else {
        "f"
    };
    proof {
        assert(r@ =~= seq![hex_digit(n as int)]);
    }
    r
}

/// Renders a byte string as lower-case hexadecimal, two digits per byte.
#[verifier::loop_isolation(false)]
pub fn to_hex(bytes: &Vec<u8>) -> (r: String)
    ensures
        r@ == hex_of(bytes@),
{
    let mut out = String::new();
    let mut i: usize = 0;
    while i < bytes.len()
        invariant
            0 <= i <= bytes@.len(),
            out@.len() == 2 * i,
            forall|k: int| 0 <= k < 2 * i ==> out@[k] == #[trigger] hex_of(bytes@)[k],
        decreases bytes@.len() - i,
    {
        let b = bytes[i];
        out.append(hex_digit_str(b / 16));
        out.append(hex_digit_str(b % 16));
        i += 1;
    }
    proof {
        assert(out@ =~= hex_of(bytes@));
    }
    out
}

/// A file host that stores nothing itself: the caller persists the bytes,
/// the mock computes the report.
pub struct MockHost(());

impl MockHost {
    pub fn new() -> (r: Self) {
        MockHost(())
    }

    /// The upload report for a file: fixed mock identity, the declared name
    /// and content type, the content's length and its SHA-1 and SHA-512
    /// digests in lower-case hexadecimal, and the given upload timestamp.
    /// A length beyond the 32-bit range is truncated, as the report field is
    /// 32 bits wide.
    pub fn upload_file_data(
        &self,
        content_type: &str,
        file_name: &str,
        file_bytes: &Vec<u8>,
        upload_timestamp: u64,
    ) -> (r: UploadFileData)
        ensures
            r.file_id@ == "MOCK_FILE_ID"@,
            r.file_name@ == file_name@,
            r.content_length == file_bytes@.len() as u32,
            r.content_sha512@ == hex_of(sha512_digest(file_bytes@)),
            r.content_sha1@ == hex_of(sha1_digest(file_bytes@)),
            r.content_md5 is None,
            r.content_type@ == content_type@,
            r.upload_timestamp == upload_timestamp,
    {
        let content_sha1 = to_hex(&sha1_digest_bytes(file_bytes));
        let content_sha512 = to_hex(&sha512_digest_bytes(file_bytes));
        #[verifier::truncate]
        let content_length = file_bytes.len() as u32;

        UploadFileData {
            file_id: "MOCK_FILE_ID".to_owned(),
            file_name: file_name.to_owned(),
            content_length,
            content_sha512,
            content_sha1,
            content_md5: None,
            content_type: content_type.to_owned(),
            upload_timestamp,
        }
    }
}

/// The stripping of every `../` segment out of a file name, scanning left to
/// right over non-overlapping occurrences.
pub open spec fn strip_parent_refs(name: Seq<char>) -> Seq<char>
    decreases name.len(),
{
    if name.len() < 3 {
        name
    } else if name.subrange(0, 3) == "../"@ {
        strip_parent_refs(name.skip(3))
    } else {
        seq![name[0]] + strip_parent_refs(name.skip(1))
    }
}

/// Strips every `../` segment out of a file name before it is joined onto the
/// storage root, so that an uploaded name cannot escape it.
#[verifier::loop_isolation(false)]
pub fn sanitize_file_name(name: &str) -> (r: String)
    ensures
        r@ == strip_parent_refs(name@),
{
    proof {
        reveal_strlit("../");
    }
    let len = name.unicode_len();
    let mut out = String::new();
    let mut i: usize = 0;
    proof {
        assert(name@.skip(0) =~= name@);
        assert(out@ + strip_parent_refs(name@) =~= strip_parent_refs(name@));
    }
    while i < len
        invariant
            0 <= i <= len,
            strip_parent_refs(name@) == out@ + strip_parent_refs(name@.skip(i as int)),
        decreases len - i,
    {
        if len - i >= 3 && name.get_char(i) == '.' && name.get_char(i + 1) == '.'
            && name.get_char(i + 2) == '/' {
            proof {
                assert(name@.skip(i as int).subrange(0, 3) =~= "../"@);
                assert(name@.skip(i as int).skip(3) =~= name@.skip(i + 3));
            }
            i += 3;
        } else {
            proof {
                if name@.skip(i as int).len() >= 3 {
                    assert(name@.skip(i as int).subrange(0, 3) != "../"@) by {
                        if name@.skip(i as int).subrange(0, 3) == "../"@ {
                            assert(name@.skip(i as int).subrange(0, 3)[0] == name@[i as int]);
                            assert(name@.skip(i as int).subrange(0, 3)[1] == name@[i as int + 1]);
                            assert(name@.skip(i as int).subrange(0, 3)[2] == name@[i as int + 2]);
                        }
                    }
                }
                assert(name@.skip(i as int)[0] == name@[i as int]);
                assert(name@.skip(i as int).skip(1) =~= name@.skip(i + 1));
            }
            let piece = name.substring_char(i, i + 1);
            proof {
                assert(piece@ =~= seq![name@[i as int]]);
            }
            out.append(piece);
            i += 1;
        }
    }
    proof {
        assert(name@.skip(i as int).len() == 0);
        assert(strip_parent_refs(name@.skip(i as int)) =~= Seq::<char>::empty());
        assert(out@ + strip_parent_refs(name@.skip(i as int)) =~= out@);
    }
    out
}

} // verus!
