//! Content identifiers, held as text.

use vstd::prelude::*;

verus! {

/// The display form of the content identifier that `text` writes, or `None`
/// where `text` writes none.
pub uninterp spec fn cid_text(text: Seq<char>) -> Option<Seq<char>>;

/// `cid::Cid::try_from` on text, handed back in the display form of the
/// identifier that was read.
#[verifier::external_body]
pub(crate) fn read_cid(text: &str) -> (out: Option<String>)
    ensures
        out.deep_view() == cid_text(text@),
{
    match cid::Cid::try_from(text) {
        Ok(id) => Some(id.to_string()),
        Err(_) => None,
    }
}

/// The display form of the version 1 content identifier with the given
/// codec over the multihash of the given code and digest.
pub uninterp spec fn cid_v1_text(codec: u64, hash_code: u64, digest: Seq<u8>) -> Seq<char>;

/// `cid::multihash::Multihash::wrap` and `cid::Cid::new_v1`, handed back in
/// display form. The digest is wrapped as it is; one of more than 64 bytes
/// is refused.
#[verifier::external_body]
pub(crate) fn make_cid(codec: u64, hash_code: u64, digest: &[u8]) -> (out: Option<String>)
    ensures
        out is Some <==> digest@.len() <= 64,
        out matches Some(text) ==> text@ == cid_v1_text(codec, hash_code, digest@),
{
    match cid::multihash::Multihash::<64>::wrap(hash_code, digest) {
        Ok(hash) => Some(cid::Cid::new_v1(codec, hash).to_string()),
        Err(_) => None,
    }
}

/// The multicodec code of DAG-CBOR.
pub const DAG_CBOR: u64 = 0x71;

/// The multihash code of SHA-256.
pub const SHA2_256: u64 = 0x12;

/// The content identifier of a DAG-CBOR block: version 1, over the SHA-256
/// digest of its bytes.
pub open spec fn block_cid(block: Seq<u8>) -> Seq<char> {
    cid_v1_text(DAG_CBOR, SHA2_256, crate::crypto::sha256(block))
}

/// The content identifier of a DAG-CBOR block.
pub fn cid_of_block(block: &Vec<u8>) -> (out: String)
    ensures
        out@ == block_cid(block@),
{
    let digest = crate::crypto::sha256_digest(block.as_slice());
    match make_cid(DAG_CBOR, SHA2_256, digest.as_slice()) {
        Some(text) => text,
        None => vstd::pervasive::unreached(),
    }
}

/// What a caller's optional content identifier parses to: nothing where none
/// was given, the identifier's display form where it can be read, and
/// `Err(())` where it cannot.
pub open spec fn parsed_optional_cid(text: Option<Seq<char>>) -> Result<Option<Seq<char>>, ()> {
    match text {
        None => Ok(None),
        Some(t) => match cid_text(t) {
            Some(id) => Ok(Some(id)),
            None => Err(()),
        },
    }
}

/// Places the result of reading a content identifier that a caller gave.
pub fn require_cid(read: Option<String>) -> (out: Result<Option<String>, ()>)
    ensures
        out matches Ok(id) ==> read is Some && id == read,
        out is Err <==> read is None,
{
    match read {
        Some(id) => Ok(Some(id)),
        None => Err(()),
    }
}

/// Parses the content identifier that a caller may have given.
pub fn parse_optional_cid(text: &Option<String>) -> (out: Result<Option<String>, ()>)
    ensures
        match out {
            Ok(id) => Ok::<Option<Seq<char>>, ()>(id.deep_view()),
            Err(e) => Err(e),
        } == parsed_optional_cid(text.deep_view()),
{
    match text {
        None => Ok(None),
        Some(t) => require_cid(read_cid(t.as_str())),
    }
}

} // verus!
