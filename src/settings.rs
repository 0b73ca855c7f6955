//! The settings chunk: its layout as a function of the inputs, and the
//! encoder that writes it.
use vstd::prelude::*;
use vstd::string::StringSliceAdditionalSpecFns;
use crate::le::{le32, le64, words_le, push_u32_le, push_bytes, lemma_words_le_concat};
use crate::stream::{zlib_of, pas_string, compress_bytes, CompressedStream, WritePascalString};
use crate::version::GameVersion;

verus! {

/// The global game settings, as read from a compiled game.
#[derive(Clone, Debug)]
pub struct Settings {
    pub fullscreen: bool,
    pub dont_draw_border: bool,
    pub display_cursor: bool,
    pub interpolate_pixels: bool,
    pub scaling: i32,
    pub allow_resize: bool,
    pub window_on_top: bool,
    pub clear_colour: u32,
    pub set_resolution: bool,
    pub colour_depth: u32,
    pub resolution: u32,
    pub frequency: u32,
    pub dont_show_buttons: bool,
    pub vsync: bool,
    pub disable_screensaver: bool,
    pub f4_fullscreen_toggle: bool,
    pub f1_help_menu: bool,
    pub esc_close_game: bool,
    pub f5_save_f6_load: bool,
    pub f9_screenshot: bool,
    pub treat_close_as_esc: bool,
    pub priority: u32,
    pub freeze_on_lose_focus: bool,
    pub loading_bar: u32,
    pub backdata: Option<Vec<u8>>,
    pub frontdata: Option<Vec<u8>>,
    pub custom_load_image: Option<Vec<u8>>,
    pub transparent: bool,
    pub translucency: u32,
    pub scale_progress_bar: bool,
    pub show_error_messages: bool,
    pub log_errors: bool,
    pub always_abort: bool,
    pub zero_uninitalized_vars: bool,
    pub error_on_uninitalized_args: bool,
}

/// The settings chunk's own format version, whatever the file's version.
pub const SETTINGS_VERSION: u32 = 800;

/// The loading-bar mode that carries custom back and front images.
pub const CUSTOM_LOADING_BAR: u32 = 2;

/// Placeholder metadata: the author, the empty strings, the zero version
/// components and the zero timestamps.
pub const AUTHOR: &'static str = "decompiler clan :police_car: :police_car: :police_car:";

pub const EMPTY_TEXT: &'static str = "";

pub const TIMESTAMP: u64 = 0;

pub const VERSION_MAJOR: u32 = 0;

pub const VERSION_MINOR: u32 = 0;

pub const VERSION_RELEASE: u32 = 0;

pub const VERSION_BUILD: u32 = 0;

/// A boolean as a 32-bit word.
pub open spec fn flag(b: bool) -> u32 {
    if b {
        1
    } else {
        0
    }
}

/// The display words: fullscreen flag to colour depth.
pub open spec fn display_words(s: Settings) -> Seq<u32> {
    seq![
        flag(s.fullscreen),
        flag(s.dont_draw_border),
        flag(s.display_cursor),
        flag(s.interpolate_pixels),
        s.scaling as u32,
        flag(s.allow_resize),
        flag(s.window_on_top),
        s.clear_colour,
        flag(s.set_resolution),
        s.colour_depth,
    ]
}

/// The resolution words and the key options.
pub open spec fn option_words(s: Settings) -> Seq<u32> {
    seq![
        s.resolution,
        s.frequency,
        flag(s.dont_show_buttons),
        flag(s.vsync),
        flag(s.disable_screensaver),
        flag(s.f4_fullscreen_toggle),
        flag(s.f1_help_menu),
        flag(s.esc_close_game),
    ]
}

/// The remaining options, the process priority and the loading-bar mode.
pub open spec fn process_words(s: Settings) -> Seq<u32> {
    seq![
        flag(s.f5_save_f6_load),
        flag(s.f9_screenshot),
        flag(s.treat_close_as_esc),
        s.priority,
        flag(s.freeze_on_lose_focus),
        s.loading_bar,
    ]
}

/// The words from the fullscreen flag to the loading-bar mode, in order.
pub open spec fn head_words(s: Settings) -> Seq<u32> {
    display_words(s) + option_words(s) + process_words(s)
}

/// A compressed blob behind its length.
pub open spec fn framed(data: Seq<u8>) -> Seq<u8> {
    le32(zlib_of(data).len() as u32) + zlib_of(data)
}

/// An optional loading-bar image: a presence flag, then the framed blob.
pub open spec fn blob_section(data: Option<Vec<u8>>) -> Seq<u8> {
    match data {
        Some(d) => le32(1) + framed(d@),
        None => le32(0),
    }
}

/// The back and front images, present only in the custom loading-bar mode.
pub open spec fn loading_bar_section(s: Settings) -> Seq<u8> {
    if s.loading_bar == CUSTOM_LOADING_BAR {
        blob_section(s.backdata) + blob_section(s.frontdata)
    } else {
        Seq::empty()
    }
}

/// The custom load image: two set flags and the framed blob, or one clear
/// flag.
pub open spec fn custom_image_section(data: Option<Vec<u8>>) -> Seq<u8> {
    match data {
        Some(d) => le32(1) + le32(1) + framed(d@),
        None => le32(0),
    }
}

/// Transparency, translucency and progress-bar scaling.
pub open spec fn mid_words(s: Settings) -> Seq<u32> {
    seq![flag(s.transparent), s.translucency, flag(s.scale_progress_bar)]
}

/// The icon's length, then its bytes.
pub open spec fn icon_section(icon: Seq<u8>) -> Seq<u8> {
    le32(icon.len() as u32) + icon
}

/// The uninitialised-variable word: one flag in the earlier version, two
/// flags packed as `2 * error_on_args + zero_vars` in the later one.
pub open spec fn uninitialized_word(s: Settings, version: GameVersion) -> u32 {
    match version {
        GameVersion::GameMaker8_0 => flag(s.zero_uninitalized_vars),
        GameVersion::GameMaker8_1 => (2 * flag(s.error_on_uninitalized_args) + flag(
            s.zero_uninitalized_vars,
        )) as u32,
    }
}

/// The error-handling words.
pub open spec fn error_words(s: Settings, version: GameVersion) -> Seq<u32> {
    seq![
        flag(s.show_error_messages),
        flag(s.log_errors),
        flag(s.always_abort),
        uninitialized_word(s, version),
    ]
}

/// The placeholder metadata that closes the payload.
pub open spec fn metadata_bytes() -> Seq<u8> {
    pas_string(AUTHOR.spec_bytes()) + pas_string(EMPTY_TEXT.spec_bytes()) + le64(TIMESTAMP)
        + pas_string(EMPTY_TEXT.spec_bytes()) + words_le(
        seq![VERSION_MAJOR, VERSION_MINOR, VERSION_RELEASE, VERSION_BUILD],
    ) + pas_string(EMPTY_TEXT.spec_bytes()) + pas_string(EMPTY_TEXT.spec_bytes()) + pas_string(
        EMPTY_TEXT.spec_bytes(),
    ) + pas_string(EMPTY_TEXT.spec_bytes()) + le64(TIMESTAMP)
}

/// The payload before compression, field by field.
#[verifier::opaque]
pub open spec fn settings_payload(s: Settings, icon: Seq<u8>, version: GameVersion) -> Seq<u8> {
    words_le(head_words(s)) + loading_bar_section(s) + custom_image_section(s.custom_load_image)
        + words_le(mid_words(s)) + icon_section(icon) + words_le(error_words(s, version))
        + metadata_bytes()
}

/// The chunk as it stands in the file: the chunk's format version, the
/// compressed payload's length, the compressed payload.
pub open spec fn settings_block(compressed: Seq<u8>) -> Seq<u8> {
    le32(SETTINGS_VERSION) + le32(compressed.len() as u32) + compressed
}

/// A boolean as a 32-bit word.
pub fn flag_word(b: bool) -> (r: u32)
    ensures
        r == flag(b),
{
    if b {
        1
    } else {
        0
    }
}

/// The uninitialised-variable word for `version`.
pub fn uninitialized_vars_field(settings: &Settings, version: GameVersion) -> (r: u32)
    ensures
        r == uninitialized_word(*settings, version),
{
    let zero = flag_word(settings.zero_uninitalized_vars);
    match version {
        GameVersion::GameMaker8_0 => zero,
        GameVersion::GameMaker8_1 => {
            let err = flag_word(settings.error_on_uninitalized_args);
            assert((err << 1u32) | zero == 2 * err + zero) by (bit_vector)
                requires
                    err <= 1,
                    zero <= 1,
            ;
            (err << 1u32) | zero
        },
    }
}

/// Appends a compressed blob behind its length.
fn write_framed(enc: &mut CompressedStream, data: &Vec<u8>)
    ensures
        final(enc)@ == old(enc)@ + framed(data@),
{
    let compressed = compress_bytes(data.as_slice());
    enc.write_u32_le(compressed.len() as u32);
    enc.write_all(compressed.as_slice());
}

/// Appends an optional loading-bar image.
fn write_blob_section(enc: &mut CompressedStream, data: &Option<Vec<u8>>)
    ensures
        final(enc)@ == old(enc)@ + blob_section(*data),
{
    match data {
        Some(d) => {
            enc.write_u32_le(1);
            write_framed(enc, d);
        },
        None => {
            enc.write_u32_le(0);
        },
    }
}

/// Appends the custom load image.
fn write_custom_image_section(enc: &mut CompressedStream, data: &Option<Vec<u8>>)
    ensures
        final(enc)@ == old(enc)@ + custom_image_section(*data),
{
    match data {
        Some(d) => {
            enc.write_u32_le(1);
            enc.write_u32_le(1);
            write_framed(enc, d);
        },
        None => {
            enc.write_u32_le(0);
        },
    }
}

/// Appends the placeholder metadata.
fn write_metadata(enc: &mut CompressedStream)
    ensures
        final(enc)@ == old(enc)@ + metadata_bytes(),
{
    let ghost start = enc@;
    let ghost e = pas_string(EMPTY_TEXT.spec_bytes());
    let version: [u32; 4] = [VERSION_MAJOR, VERSION_MINOR, VERSION_RELEASE, VERSION_BUILD];
    assert(version@ =~= seq![VERSION_MAJOR, VERSION_MINOR, VERSION_RELEASE, VERSION_BUILD]);
    let ghost m1 = pas_string(AUTHOR.spec_bytes());
    enc.write_pas_string(AUTHOR);
    let ghost m2 = m1 + e;
    enc.write_pas_string(EMPTY_TEXT);
    assert(enc@ =~= start + m2);
    let ghost m3 = m2 + le64(TIMESTAMP);
    enc.write_u64_le(TIMESTAMP);
    assert(enc@ =~= start + m3);
    let ghost m4 = m3 + e;
    enc.write_pas_string(EMPTY_TEXT);
    assert(enc@ =~= start + m4);
    let ghost m5 = m4 + words_le(version@);
    enc.write_words(&version);
    assert(enc@ =~= start + m5);
    let ghost m6 = m5 + e;
    enc.write_pas_string(EMPTY_TEXT);
    assert(enc@ =~= start + m6);
    let ghost m7 = m6 + e;
    enc.write_pas_string(EMPTY_TEXT);
    assert(enc@ =~= start + m7);
    let ghost m8 = m7 + e;
    enc.write_pas_string(EMPTY_TEXT);
    assert(enc@ =~= start + m8);
    let ghost m9 = m8 + e;
    enc.write_pas_string(EMPTY_TEXT);
    assert(enc@ =~= start + m9);
    let ghost m10 = m9 + le64(TIMESTAMP);
    enc.write_u64_le(TIMESTAMP);
    assert(enc@ =~= start + m10);
    assert(m10 == metadata_bytes());
}

} // verus!

verus! {

/// Appends the display words.
fn write_display_words(enc: &mut CompressedStream, settings: &Settings)
    ensures
        final(enc)@ == old(enc)@ + words_le(display_words(*settings)),
{
    let words: [u32; 10] = [
        flag_word(settings.fullscreen),
        flag_word(settings.dont_draw_border),
        flag_word(settings.display_cursor),
        flag_word(settings.interpolate_pixels),
        settings.scaling as u32,
        flag_word(settings.allow_resize),
        flag_word(settings.window_on_top),
        settings.clear_colour,
        flag_word(settings.set_resolution),
        settings.colour_depth,
    ];
    assert(words@ =~= display_words(*settings));
    enc.write_words(&words);
}

/// Appends the resolution words and the key options.
fn write_option_words(enc: &mut CompressedStream, settings: &Settings)
    ensures
        final(enc)@ == old(enc)@ + words_le(option_words(*settings)),
{
    let words: [u32; 8] = [
        settings.resolution,
        settings.frequency,
        flag_word(settings.dont_show_buttons),
        flag_word(settings.vsync),
        flag_word(settings.disable_screensaver),
        flag_word(settings.f4_fullscreen_toggle),
        flag_word(settings.f1_help_menu),
        flag_word(settings.esc_close_game),
    ];
    assert(words@ =~= option_words(*settings));
    enc.write_words(&words);
}

/// Appends the remaining options, the priority and the loading-bar mode.
fn write_process_words(enc: &mut CompressedStream, settings: &Settings)
    ensures
        final(enc)@ == old(enc)@ + words_le(process_words(*settings)),
{
    let words: [u32; 6] = [
        flag_word(settings.f5_save_f6_load),
        flag_word(settings.f9_screenshot),
        flag_word(settings.treat_close_as_esc),
        settings.priority,
        flag_word(settings.freeze_on_lose_focus),
        settings.loading_bar,
    ];
    assert(words@ =~= process_words(*settings));
    enc.write_words(&words);
}

/// Appends the words from the fullscreen flag to the loading-bar mode.
fn write_head(enc: &mut CompressedStream, settings: &Settings)
    ensures
        final(enc)@ == old(enc)@ + words_le(head_words(*settings)),
{
    let ghost s = *settings;
    write_display_words(enc, settings);
    write_option_words(enc, settings);
    write_process_words(enc, settings);
    proof {
        lemma_words_le_concat(display_words(s), option_words(s));
        lemma_words_le_concat(display_words(s) + option_words(s), process_words(s));
    }
    assert(final(enc)@ =~= old(enc)@ + words_le(head_words(s)));
}

/// Appends the loading-bar images where the mode calls for them.
fn write_loading_bar_section(enc: &mut CompressedStream, settings: &Settings)
    ensures
        final(enc)@ == old(enc)@ + loading_bar_section(*settings),
{
    if settings.loading_bar == CUSTOM_LOADING_BAR {
        write_blob_section(enc, &settings.backdata);
        write_blob_section(enc, &settings.frontdata);
    }
    assert(final(enc)@ =~= old(enc)@ + loading_bar_section(*settings));
}

/// Appends transparency, translucency and progress-bar scaling, then the
/// icon block.
fn write_mid_and_icon(enc: &mut CompressedStream, settings: &Settings, ico_file: &[u8])
    ensures
        final(enc)@ == old(enc)@ + words_le(mid_words(*settings)) + icon_section(ico_file@),
{
    let mid: [u32; 3] = [
        flag_word(settings.transparent),
        settings.translucency,
        flag_word(settings.scale_progress_bar),
    ];
    assert(mid@ =~= mid_words(*settings));
    enc.write_words(&mid);
    enc.write_u32_le(ico_file.len() as u32);
    enc.write_all(ico_file);
    assert(final(enc)@ =~= old(enc)@ + words_le(mid_words(*settings)) + icon_section(ico_file@));
}

/// Appends the error-handling words.
fn write_error_words(enc: &mut CompressedStream, settings: &Settings, version: GameVersion)
    ensures
        final(enc)@ == old(enc)@ + words_le(error_words(*settings, version)),
{
    let errors: [u32; 4] = [
        flag_word(settings.show_error_messages),
        flag_word(settings.log_errors),
        flag_word(settings.always_abort),
        uninitialized_vars_field(settings, version),
    ];
    assert(errors@ =~= error_words(*settings, version));
    enc.write_words(&errors);
}

/// Appends the whole uncompressed payload, field by field.
pub fn write_payload(
    enc: &mut CompressedStream,
    settings: &Settings,
    ico_file: &[u8],
    version: GameVersion,
)
    ensures
        final(enc)@ == old(enc)@ + settings_payload(*settings, ico_file@, version),
{
    let ghost start = enc@;
    let ghost s = *settings;
    write_head(enc, settings);
    let ghost p1 = words_le(head_words(s));
    write_loading_bar_section(enc, settings);
    let ghost p2 = p1 + loading_bar_section(s);
    assert(enc@ =~= start + p2);
    write_custom_image_section(enc, &settings.custom_load_image);
    let ghost p3 = p2 + custom_image_section(s.custom_load_image);
    assert(enc@ =~= start + p3);
    write_mid_and_icon(enc, settings, ico_file);
    let ghost p5 = p3 + words_le(mid_words(s)) + icon_section(ico_file@);
    assert(enc@ =~= start + p5);
    write_error_words(enc, settings, version);
    let ghost p6 = p5 + words_le(error_words(s, version));
    assert(enc@ =~= start + p6);
    write_metadata(enc);
    reveal(settings_payload);
    assert(enc@ =~= start + (p6 + metadata_bytes()));
}

/// The chunk as it stands in the file, around an already compressed
/// payload.
pub fn frame_settings_block(compressed: &[u8]) -> (r: Vec<u8>)
    ensures
        r@ == settings_block(compressed@),
{
    let mut out: Vec<u8> = Vec::new();
    push_u32_le(&mut out, SETTINGS_VERSION);
    push_u32_le(&mut out, compressed.len() as u32);
    push_bytes(&mut out, compressed);
    assert(out@ =~= settings_block(compressed@));
    out
}

/// The settings chunk: the payload compressed as one zlib stream, behind
/// the chunk's format version and the compressed length.
pub fn write_settings(settings: Settings, ico_file: Vec<u8>, version: GameVersion) -> (r: Vec<u8>)
    ensures
        r@ == settings_block(zlib_of(settings_payload(settings, ico_file@, version))),
{
    let mut enc = CompressedStream::new();
    write_payload(&mut enc, &settings, ico_file.as_slice(), version);
    let compressed = enc.finish();
    frame_settings_block(compressed.as_slice())
}

} // verus!
