//! Reading the payload back, and the properties that the layout keeps.
use vstd::prelude::*;
use crate::le::{le32, words_le, read_le32, read_words, lemma_read_le32, lemma_read_words, lemma_words_le_len};
use crate::header::header_bytes;
use crate::settings::{
    Settings, flag, head_words, display_words, option_words, process_words, mid_words, error_words, uninitialized_word, blob_section,
    loading_bar_section, custom_image_section, icon_section, metadata_bytes, settings_payload,
    settings_block, framed, CUSTOM_LOADING_BAR,
};
use crate::stream::zlib_of;
use crate::version::GameVersion;

verus! {

/// The fields of a payload that a reader recovers by walking it.
pub struct PayloadFields {
    pub head: Seq<u32>,
    pub custom_image_flag: u32,
    pub mid: Seq<u32>,
    pub icon: Seq<u8>,
    pub errors: Seq<u32>,
}

/// Offset past a loading-bar image section that starts at `off`.
pub open spec fn skip_blob(p: Seq<u8>, off: int) -> int {
    if read_le32(p, off) == 1 {
        off + 8 + read_le32(p, off + 4)
    } else {
        off + 4
    }
}

/// Offset past a custom-image section that starts at `off`.
pub open spec fn skip_custom_image(p: Seq<u8>, off: int) -> int {
    if read_le32(p, off) == 1 {
        off + 12 + read_le32(p, off + 8)
    } else {
        off + 4
    }
}

/// Where the loading-bar images of a payload end.
pub open spec fn loading_bar_end(p: Seq<u8>) -> int {
    if read_le32(p, 92) == CUSTOM_LOADING_BAR {
        skip_blob(p, skip_blob(p, 96))
    } else {
        96
    }
}

/// Walks a payload in its fixed field order, skipping the compressed images.
#[verifier::opaque]
pub open spec fn decode_payload(p: Seq<u8>) -> PayloadFields {
    let lb_end = loading_bar_end(p);
    let ci_end = skip_custom_image(p, lb_end);
    let icon_len = read_le32(p, ci_end + 12);
    PayloadFields {
        head: read_words(p, 0, 24),
        custom_image_flag: read_le32(p, lb_end),
        mid: read_words(p, ci_end, 3),
        icon: p.subrange(ci_end + 16, ci_end + 16 + icon_len),
        errors: read_words(p, ci_end + 16 + icon_len, 4),
    }
}

/// Whether a compressed blob's length fits its 32-bit length word.
pub open spec fn frame_fits(data: Option<Vec<u8>>) -> bool {
    data matches Some(d) ==> zlib_of(d@).len() <= u32::MAX
}

/// Whether every length that the payload of `s` carries fits its word.
pub open spec fn lengths_fit(s: Settings, icon: Seq<u8>) -> bool {
    &&& icon.len() <= u32::MAX
    &&& frame_fits(s.custom_load_image)
    &&& s.loading_bar == CUSTOM_LOADING_BAR ==> frame_fits(s.backdata) && frame_fits(s.frontdata)
}

/// Everything of the payload after the custom image.
pub open spec fn payload_tail(s: Settings, icon: Seq<u8>, version: GameVersion) -> Seq<u8> {
    words_le(mid_words(s)) + icon_section(icon) + words_le(error_words(s, version))
        + metadata_bytes()
}

proof fn lemma_payload_parts(s: Settings, icon: Seq<u8>, version: GameVersion)
    ensures
        settings_payload(s, icon, version) == words_le(head_words(s)) + loading_bar_section(s)
            + custom_image_section(s.custom_load_image) + payload_tail(s, icon, version),
        words_le(head_words(s)).len() == 96,
{
    lemma_words_le_len(head_words(s));
    reveal(settings_payload);
    assert(settings_payload(s, icon, version) =~= words_le(head_words(s)) + loading_bar_section(s)
        + custom_image_section(s.custom_load_image) + payload_tail(s, icon, version));
}

proof fn lemma_skip_blob(pre: Seq<u8>, data: Option<Vec<u8>>, post: Seq<u8>)
    requires
        frame_fits(data),
    ensures
        skip_blob(pre + blob_section(data) + post, pre.len() as int) == pre.len()
            + blob_section(data).len(),
{
    match data {
        Some(d) => {
            let c = zlib_of(d@);
            lemma_read_le32(pre, 1, le32(c.len() as u32) + c + post);
            assert(pre + blob_section(data) + post =~= pre + le32(1) + (le32(c.len() as u32) + c
                + post));
            lemma_read_le32(pre + le32(1), c.len() as u32, c + post);
            assert(pre + blob_section(data) + post =~= (pre + le32(1)) + le32(c.len() as u32) + (c
                + post));
        },
        None => {
            lemma_read_le32(pre, 0, post);
        },
    }
}

proof fn lemma_skip_custom_image(pre: Seq<u8>, data: Option<Vec<u8>>, post: Seq<u8>)
    requires
        frame_fits(data),
    ensures
        skip_custom_image(pre + custom_image_section(data) + post, pre.len() as int) == pre.len()
            + custom_image_section(data).len(),
        read_le32(pre + custom_image_section(data) + post, pre.len() as int) == flag(
            data is Some,
        ),
{
    match data {
        Some(d) => {
            let c = zlib_of(d@);
            let b = pre + custom_image_section(data) + post;
            assert(b =~= pre + le32(1) + (le32(1) + le32(c.len() as u32) + c + post));
            lemma_read_le32(pre, 1, le32(1) + le32(c.len() as u32) + c + post);
            assert(b =~= (pre + le32(1) + le32(1)) + le32(c.len() as u32) + (c + post));
            lemma_read_le32(pre + le32(1) + le32(1), c.len() as u32, c + post);
        },
        None => {
            lemma_read_le32(pre, 0, post);
        },
    }
}

proof fn lemma_read_tail(
    pre: Seq<u8>,
    mid: Seq<u32>,
    icon: Seq<u8>,
    errors: Seq<u32>,
    post: Seq<u8>,
)
    requires
        icon.len() <= u32::MAX,
        mid.len() == 3,
        errors.len() == 4,
    ensures
        ({
            let p = pre + words_le(mid) + icon_section(icon) + words_le(errors) + post;
            let off = pre.len() as int;
            &&& read_words(p, off, 3) == mid
            &&& read_le32(p, off + 12) == icon.len()
            &&& p.subrange(off + 16, off + 16 + icon.len()) == icon
            &&& read_words(p, off + 16 + icon.len(), 4) == errors
        }),
{
    let p = pre + words_le(mid) + icon_section(icon) + words_le(errors) + post;
    let m = words_le(mid);
    let e = words_le(errors);
    lemma_words_le_len(mid);
    assert(p =~= pre + m + (icon_section(icon) + e + post));
    lemma_read_words(pre, mid, icon_section(icon) + e + post);
    assert(p =~= (pre + m) + le32(icon.len() as u32) + (icon + e + post));
    lemma_read_le32(pre + m, icon.len() as u32, icon + e + post);
    let off = pre.len() as int;
    assert(p.subrange(off + 16, off + 16 + icon.len()) =~= icon);
    lemma_read_words(pre + m + icon_section(icon), errors, post);
}

proof fn lemma_tail_split(pre: Seq<u8>, s: Settings, icon: Seq<u8>, version: GameVersion)
    ensures
        pre + payload_tail(s, icon, version) == pre + words_le(mid_words(s)) + icon_section(icon)
            + words_le(error_words(s, version)) + metadata_bytes(),
{
    let m = words_le(mid_words(s));
    let i = icon_section(icon);
    let e = words_le(error_words(s, version));
    let t = metadata_bytes();
    assert(pre + (m + i + e + t) =~= pre + m + i + e + t);
}

proof fn lemma_read_head(s: Settings, rest: Seq<u8>)
    ensures
        read_words(words_le(head_words(s)) + rest, 0, 24) == head_words(s),
        read_le32(words_le(head_words(s)) + rest, 92) == s.loading_bar,
{
    let h = words_le(head_words(s));
    assert(h + rest =~= Seq::<u8>::empty() + h + rest);
    lemma_read_words(Seq::empty(), head_words(s), rest);
    assert(read_words(h + rest, 0, 24)[23] == read_le32(h + rest, 92));
}

proof fn lemma_loading_bar_end(s: Settings, rest: Seq<u8>)
    requires
        s.loading_bar == CUSTOM_LOADING_BAR ==> frame_fits(s.backdata) && frame_fits(s.frontdata),
    ensures
        loading_bar_end(words_le(head_words(s)) + loading_bar_section(s) + rest) == 96
            + loading_bar_section(s).len(),
{
    let h = words_le(head_words(s));
    let p = h + loading_bar_section(s) + rest;
    lemma_words_le_len(head_words(s));
    lemma_read_head(s, loading_bar_section(s) + rest);
    assert(p =~= h + (loading_bar_section(s) + rest));
    if s.loading_bar == CUSTOM_LOADING_BAR {
        let back = blob_section(s.backdata);
        let front = blob_section(s.frontdata);
        assert(p =~= h + back + (front + rest));
        lemma_skip_blob(h, s.backdata, front + rest);
        assert(p =~= (h + back) + front + rest);
        lemma_skip_blob(h + back, s.frontdata, rest);
    }
}

/// Reading a payload back in its fixed field order gives every scalar
/// field as it was written, the custom-image flag, and the icon bytes
/// unchanged, wherever the lengths fit their words.
pub proof fn lemma_payload_round_trip(s: Settings, icon: Seq<u8>, version: GameVersion)
    requires
        lengths_fit(s, icon),
    ensures
        decode_payload(settings_payload(s, icon, version)) == (PayloadFields {
            head: head_words(s),
            custom_image_flag: flag(s.custom_load_image is Some),
            mid: mid_words(s),
            icon: icon,
            errors: error_words(s, version),
        }),
{
    let p = settings_payload(s, icon, version);
    let h = words_le(head_words(s));
    let lb = loading_bar_section(s);
    let ci = custom_image_section(s.custom_load_image);
    let tail = payload_tail(s, icon, version);
    lemma_payload_parts(s, icon, version);
    assert(p =~= h + lb + (ci + tail));
    lemma_read_head(s, lb + (ci + tail));
    lemma_loading_bar_end(s, ci + tail);
    assert(p =~= (h + lb) + ci + tail);
    lemma_skip_custom_image(h + lb, s.custom_load_image, tail);
    assert(p == (h + lb + ci) + tail);
    let off = (h + lb + ci).len() as int;
    lemma_read_tail(h + lb + ci, mid_words(s), icon, error_words(s, version), metadata_bytes());
    lemma_tail_split(h + lb + ci, s, icon, version);
    let lb_end = 96 + lb.len() as int;
    assert(loading_bar_end(p) == lb_end);
    assert(read_le32(p, lb_end) == flag(s.custom_load_image is Some));
    assert(skip_custom_image(p, lb_end) == off);
    assert(read_le32(p, off + 12) == icon.len());
    assert(read_words(p, 0, 24) == head_words(s));
    assert(read_words(p, off, 3) == mid_words(s));
    assert(p.subrange(off + 16, off + 16 + icon.len()) == icon);
    assert(read_words(p, off + 16 + icon.len(), 4) == error_words(s, version));
    assert(decode_payload(p) == (PayloadFields {
        head: head_words(s),
        custom_image_flag: flag(s.custom_load_image is Some),
        mid: mid_words(s),
        icon: icon,
        errors: error_words(s, version),
    })) by {
        reveal(decode_payload);
    }
}

/// Whether a word is a boolean's encoding.
pub open spec fn is_bit(x: u32) -> bool {
    x == 0 || x == 1
}

/// The header carries 800 for the earlier version and 810 for the later
/// one, after the magic number; the settings chunk carries 800 whatever the
/// version.
pub proof fn lemma_version_codes(
    version: GameVersion,
    game_id: u32,
    guid: Seq<u32>,
    compressed: Seq<u8>,
)
    requires
        guid.len() == 4,
    ensures
        read_le32(header_bytes(version, game_id, guid), 0) == 1234321,
        read_le32(header_bytes(version, game_id, guid), 4) == match version {
            GameVersion::GameMaker8_0 => 800u32,
            GameVersion::GameMaker8_1 => 810u32,
        },
        read_le32(settings_block(compressed), 0) == 800,
{
    let ws = seq![crate::header::MAGIC, crate::version::version_code(version), game_id] + guid;
    let h = header_bytes(version, game_id, guid);
    assert(h =~= Seq::<u8>::empty() + words_le(ws) + Seq::<u8>::empty());
    lemma_read_words(Seq::empty(), ws, Seq::empty());
    assert(read_words(h, 0, ws.len())[0] == read_le32(h, 0));
    assert(read_words(h, 0, ws.len())[1] == read_le32(h, 4));
    let b = settings_block(compressed);
    assert(b =~= Seq::<u8>::empty() + le32(800) + (le32(compressed.len() as u32) + compressed));
    lemma_read_le32(Seq::empty(), 800, le32(compressed.len() as u32) + compressed);
}

proof fn lemma_display_flags(s: Settings)
    ensures
        ({
            let d = display_words(s);
            is_bit(d[0]) && is_bit(d[1]) && is_bit(d[2]) && is_bit(d[3]) && is_bit(d[5]) && is_bit(
                d[6],
            ) && is_bit(d[8])
        }),
{
}

proof fn lemma_option_flags(s: Settings)
    ensures
        ({
            let o = option_words(s);
            is_bit(o[2]) && is_bit(o[3]) && is_bit(o[4]) && is_bit(o[5]) && is_bit(o[6]) && is_bit(
                o[7],
            )
        }),
{
}

proof fn lemma_process_flags(s: Settings)
    ensures
        ({
            let p = process_words(s);
            is_bit(p[0]) && is_bit(p[1]) && is_bit(p[2]) && is_bit(p[4])
        }),
{
}

proof fn lemma_head_flags(s: Settings)
    ensures
        ({
            let h = head_words(s);
            &&& is_bit(h[0]) && is_bit(h[1]) && is_bit(h[2]) && is_bit(h[3])
            &&& is_bit(h[5]) && is_bit(h[6]) && is_bit(h[8])
            &&& is_bit(h[12]) && is_bit(h[13]) && is_bit(h[14])
            &&& is_bit(h[15]) && is_bit(h[16]) && is_bit(h[17])
            &&& is_bit(h[18]) && is_bit(h[19]) && is_bit(h[20])
            &&& is_bit(h[22])
        }),
{
    let d = display_words(s);
    let o = option_words(s);
    let p = process_words(s);
    lemma_display_flags(s);
    lemma_option_flags(s);
    lemma_process_flags(s);
    let h = head_words(s);
    assert(d.len() == 10 && o.len() == 8 && p.len() == 6);
    assert(h == d + o + p);
    assert(h[0] == d[0] && h[1] == d[1] && h[2] == d[2] && h[3] == d[3]);
    assert(h[5] == d[5] && h[6] == d[6] && h[8] == d[8]);
    assert(h[12] == o[2] && h[13] == o[3] && h[14] == o[4]);
    assert(h[15] == o[5] && h[16] == o[6] && h[17] == o[7]);
    assert(h[18] == p[0] && h[19] == p[1] && h[20] == p[2] && h[22] == p[4]);
}

/// Every boolean field reads back as a whole word holding 0 or 1: each
/// head flag (all head words but scaling, clear colour, colour depth,
/// resolution, frequency, priority and the loading-bar mode), the
/// custom-image flag, transparency, progress-bar scaling and the
/// error-handling flags.
pub proof fn lemma_flags_are_bits(s: Settings, icon: Seq<u8>, version: GameVersion)
    requires
        lengths_fit(s, icon),
    ensures
        ({
            let d = decode_payload(settings_payload(s, icon, version));
            &&& is_bit(d.head[0]) && is_bit(d.head[1]) && is_bit(d.head[2]) && is_bit(d.head[3])
            &&& is_bit(d.head[5]) && is_bit(d.head[6]) && is_bit(d.head[8])
            &&& is_bit(d.head[12]) && is_bit(d.head[13]) && is_bit(d.head[14])
            &&& is_bit(d.head[15]) && is_bit(d.head[16]) && is_bit(d.head[17])
            &&& is_bit(d.head[18]) && is_bit(d.head[19]) && is_bit(d.head[20])
            &&& is_bit(d.head[22])
            &&& is_bit(d.custom_image_flag)
            &&& is_bit(d.mid[0]) && is_bit(d.mid[2])
            &&& is_bit(d.errors[0]) && is_bit(d.errors[1]) && is_bit(d.errors[2])
            &&& version == GameVersion::GameMaker8_0 ==> is_bit(d.errors[3])
        }),
{
    lemma_payload_round_trip(s, icon, version);
    lemma_head_flags(s);
    assert(is_bit(mid_words(s)[0]) && is_bit(mid_words(s)[2]));
    let e = error_words(s, version);
    assert(is_bit(e[0]) && is_bit(e[1]) && is_bit(e[2]));
    assert(version == GameVersion::GameMaker8_0 ==> is_bit(e[3]));
}

/// The uninitialised-variable word is the zero-variables flag alone in the
/// earlier version, and `(error_on_args << 1) | zero_vars` in the later one.
pub proof fn lemma_uninitialized_field(s: Settings, icon: Seq<u8>, version: GameVersion)
    requires
        lengths_fit(s, icon),
    ensures
        decode_payload(settings_payload(s, icon, version)).errors[3] == match version {
            GameVersion::GameMaker8_0 => flag(s.zero_uninitalized_vars),
            GameVersion::GameMaker8_1 => (flag(s.error_on_uninitalized_args) << 1u32) | flag(
                s.zero_uninitalized_vars,
            ),
        },
{
    lemma_payload_round_trip(s, icon, version);
    let e = flag(s.error_on_uninitalized_args);
    let z = flag(s.zero_uninitalized_vars);
    assert((e << 1u32) | z == 2 * e + z) by (bit_vector)
        requires
            e <= 1,
            z <= 1,
    ;
    assert(uninitialized_word(s, version) == error_words(s, version)[3]);
}

/// Outside the custom loading-bar mode no image flag follows the mode:
/// the custom-image section comes straight after it.
pub proof fn lemma_no_loading_bar_images(s: Settings, icon: Seq<u8>, version: GameVersion)
    requires
        s.loading_bar != CUSTOM_LOADING_BAR,
    ensures
        settings_payload(s, icon, version) == words_le(head_words(s)) + custom_image_section(
            s.custom_load_image,
        ) + payload_tail(s, icon, version),
{
    lemma_payload_parts(s, icon, version);
    assert(words_le(head_words(s)) + loading_bar_section(s) =~= words_le(head_words(s)));
}

/// In the custom loading-bar mode a missing back image is one clear flag,
/// followed at once by the front image's section.
pub proof fn lemma_back_image_absent(s: Settings, icon: Seq<u8>, version: GameVersion)
    requires
        s.loading_bar == CUSTOM_LOADING_BAR,
        s.backdata is None,
    ensures
        settings_payload(s, icon, version) == words_le(head_words(s)) + le32(0) + blob_section(
            s.frontdata,
        ) + custom_image_section(s.custom_load_image) + payload_tail(s, icon, version),
{
    lemma_payload_parts(s, icon, version);
    assert(words_le(head_words(s)) + loading_bar_section(s) =~= words_le(head_words(s)) + le32(0)
        + blob_section(s.frontdata));
}

/// A custom load image is two set flags, its compressed length and its
/// compressed bytes; no image is one clear flag.
pub proof fn lemma_custom_image_flags(s: Settings, icon: Seq<u8>, version: GameVersion)
    ensures
        settings_payload(s, icon, version) == words_le(head_words(s)) + loading_bar_section(s)
            + match s.custom_load_image {
            Some(d) => le32(1) + le32(1) + le32(zlib_of(d@).len() as u32) + zlib_of(d@),
            None => le32(0),
        } + payload_tail(s, icon, version),
{
    lemma_payload_parts(s, icon, version);
    match s.custom_load_image {
        Some(d) => {
            assert(custom_image_section(s.custom_load_image) =~= le32(1) + le32(1) + le32(
                zlib_of(d@).len() as u32,
            ) + zlib_of(d@));
        },
        None => {},
    }
}

} // verus!
