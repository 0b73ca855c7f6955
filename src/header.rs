//! The fixed-size file header.
use vstd::prelude::*;
use crate::le::{words_le, push_words_le};
use crate::version::{GameVersion, version_code};

verus! {

/// The magic number that opens every project file.
pub const MAGIC: u32 = 1234321;

/// The header's words: magic, version code, game id, then the GUID.
pub open spec fn header_words(version: GameVersion, game_id: u32, guid: Seq<u32>) -> Seq<u32> {
    seq![MAGIC, version_code(version), game_id] + guid
}

/// The header's bytes.
pub open spec fn header_bytes(version: GameVersion, game_id: u32, guid: Seq<u32>) -> Seq<u8> {
    words_le(header_words(version, game_id, guid))
}

/// The file header: magic, version code, game id and the four GUID words,
/// each a 32-bit little-endian word.
pub fn write_header(version: GameVersion, game_id: u32, guid: [u32; 4]) -> (r: Vec<u8>)
    ensures
        r@ == header_bytes(version, game_id, guid@),
        r@.len() == 28,
{
    let words: [u32; 7] = [MAGIC, version.code(), game_id, guid[0], guid[1], guid[2], guid[3]];
    assert(words@ =~= header_words(version, game_id, guid@));
    let mut out: Vec<u8> = Vec::new();
    push_words_le(&mut out, &words);
    proof {
        crate::le::lemma_words_le_len(words@);
    }
    assert(out@ =~= header_bytes(version, game_id, guid@));
    out
}

} // verus!
