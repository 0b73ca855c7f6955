use gmk_writer::header::write_header;
use gmk_writer::settings::{
    frame_settings_block, uninitialized_vars_field, write_payload, write_settings, Settings,
    AUTHOR,
};
use gmk_writer::stream::{compress_bytes, CompressedStream, WritePascalString};
use gmk_writer::version::GameVersion;
use std::io::Read;

fn inflate(data: &[u8]) -> Vec<u8> {
    let mut out = Vec::new();
    flate2::read::ZlibDecoder::new(data)
        .read_to_end(&mut out)
        .unwrap();
    out
}

fn word(b: &[u8], off: usize) -> u32 {
    u32::from_le_bytes([b[off], b[off + 1], b[off + 2], b[off + 3]])
}

fn base_settings() -> Settings {
    Settings {
        fullscreen: true,
        dont_draw_border: false,
        display_cursor: true,
        interpolate_pixels: false,
        scaling: -1,
        allow_resize: true,
        window_on_top: false,
        clear_colour: 0x00ABCDEF,
        set_resolution: true,
        colour_depth: 2,
        resolution: 5,
        frequency: 3,
        dont_show_buttons: false,
        vsync: true,
        disable_screensaver: true,
        f4_fullscreen_toggle: true,
        f1_help_menu: false,
        esc_close_game: true,
        f5_save_f6_load: false,
        f9_screenshot: true,
        treat_close_as_esc: true,
        priority: 1,
        freeze_on_lose_focus: false,
        loading_bar: 0,
        backdata: None,
        frontdata: None,
        custom_load_image: None,
        transparent: false,
        translucency: 255,
        scale_progress_bar: true,
        show_error_messages: true,
        log_errors: false,
        always_abort: true,
        zero_uninitalized_vars: false,
        error_on_uninitalized_args: false,
    }
}

/// The chunk's payload, decompressed, with the chunk's framing checked.
fn payload_of(settings: Settings, icon: Vec<u8>, version: GameVersion) -> Vec<u8> {
    let block = write_settings(settings, icon, version);
    assert_eq!(word(&block, 0), 800);
    assert_eq!(word(&block, 4) as usize, block.len() - 8);
    inflate(&block[8..])
}

#[test]
fn header_carries_version_codes() {
    let h = write_header(GameVersion::GameMaker8_0, 7, [1, 2, 3, 0xDEADBEEF]);
    assert_eq!(h.len(), 28);
    assert_eq!(word(&h, 0), 1234321);
    assert_eq!(word(&h, 4), 800);
    assert_eq!(word(&h, 8), 7);
    assert_eq!(&h[12..16], &[1, 0, 0, 0]);
    assert_eq!(&h[24..28], &[0xEF, 0xBE, 0xAD, 0xDE]);
    let h = write_header(GameVersion::GameMaker8_1, 7, [1, 2, 3, 4]);
    assert_eq!(word(&h, 4), 810);
    assert_eq!(&h[0..4], &[0x91, 0xD5, 0x12, 0x00]);
}

#[test]
fn settings_version_is_800_for_both_versions() {
    for v in [GameVersion::GameMaker8_0, GameVersion::GameMaker8_1] {
        let block = write_settings(base_settings(), vec![1, 2, 3], v);
        assert_eq!(&block[0..4], &[0x20, 0x03, 0, 0]);
    }
}

#[test]
fn scalar_fields_in_order() {
    let p = payload_of(base_settings(), vec![], GameVersion::GameMaker8_0);
    let expected: [u32; 24] = [
        1, 0, 1, 0, 0xFFFF_FFFF, 1, 0, 0x00ABCDEF, 1, 2, 5, 3, 0, 1, 1, 1, 0, 1, 0, 1, 1, 1, 0, 0,
    ];
    for (i, e) in expected.iter().enumerate() {
        assert_eq!(word(&p, 4 * i), *e, "word {}", i);
    }
}

#[test]
fn scenario_plain_loading_bar_earlier_version() {
    let p = payload_of(base_settings(), vec![0xFF, 0xD8], GameVersion::GameMaker8_0);
    // loading-bar mode, then at once the single clear custom-image flag
    assert_eq!(word(&p, 92), 0);
    assert_eq!(&p[96..100], &[0, 0, 0, 0]);
    // transparency, translucency, progress-bar scaling
    assert_eq!(word(&p, 100), 0);
    assert_eq!(word(&p, 104), 255);
    assert_eq!(word(&p, 108), 1);
    // the icon block
    assert_eq!(&p[112..118], &[0x02, 0x00, 0x00, 0x00, 0xFF, 0xD8]);
    // error handling and the uninitialised-variable word
    assert_eq!(word(&p, 118), 1);
    assert_eq!(word(&p, 122), 0);
    assert_eq!(word(&p, 126), 1);
    assert_eq!(word(&p, 130), 0);
}

#[test]
fn scenario_later_version_error_on_args() {
    let mut s = base_settings();
    s.error_on_uninitalized_args = true;
    s.zero_uninitalized_vars = false;
    let p = payload_of(s, vec![0xFF, 0xD8], GameVersion::GameMaker8_1);
    assert_eq!(word(&p, 130), 2);
}

#[test]
fn uninitialized_field_packing() {
    let mut s = base_settings();
    for (e, z) in [(false, false), (false, true), (true, false), (true, true)] {
        s.error_on_uninitalized_args = e;
        s.zero_uninitalized_vars = z;
        assert_eq!(uninitialized_vars_field(&s, GameVersion::GameMaker8_0), z as u32);
        assert_eq!(
            uninitialized_vars_field(&s, GameVersion::GameMaker8_1),
            ((e as u32) << 1) | (z as u32)
        );
    }
    s.error_on_uninitalized_args = true;
    s.zero_uninitalized_vars = true;
    assert_eq!(uninitialized_vars_field(&s, GameVersion::GameMaker8_1), 3);
    assert_eq!(uninitialized_vars_field(&s, GameVersion::GameMaker8_0), 1);
}

#[test]
fn no_image_flags_outside_custom_loading_bar() {
    let mut s = base_settings();
    s.loading_bar = 1;
    s.backdata = Some(vec![9; 10]);
    s.frontdata = Some(vec![8; 10]);
    let p = payload_of(s, vec![], GameVersion::GameMaker8_0);
    assert_eq!(word(&p, 92), 1);
    // custom-image flag, then the three words, then the empty icon block
    assert_eq!(word(&p, 96), 0);
    assert_eq!(word(&p, 104), 255);
    assert_eq!(word(&p, 112), 0);
}

#[test]
fn custom_loading_bar_without_back_image() {
    let mut s = base_settings();
    s.loading_bar = 2;
    s.frontdata = Some(vec![7, 7, 7, 7, 7, 7, 7, 7]);
    let p = payload_of(s, vec![], GameVersion::GameMaker8_0);
    assert_eq!(word(&p, 92), 2);
    assert_eq!(word(&p, 96), 0);
    assert_eq!(word(&p, 100), 1);
    let len = word(&p, 104) as usize;
    let front = &p[108..108 + len];
    assert_ne!(front, &[7, 7, 7, 7, 7, 7, 7, 7][..]);
    assert_eq!(inflate(front), vec![7, 7, 7, 7, 7, 7, 7, 7]);
    assert_eq!(word(&p, 108 + len), 0);
}

#[test]
fn custom_loading_bar_both_images_absent() {
    let mut s = base_settings();
    s.loading_bar = 2;
    let p = payload_of(s, vec![], GameVersion::GameMaker8_0);
    assert_eq!(word(&p, 96), 0);
    assert_eq!(word(&p, 100), 0);
    assert_eq!(word(&p, 104), 0);
    assert_eq!(word(&p, 112), 255);
}

#[test]
fn custom_image_has_two_set_flags() {
    let mut s = base_settings();
    let image: Vec<u8> = (0..200u32).map(|i| (i % 7) as u8).collect();
    s.custom_load_image = Some(image.clone());
    let p = payload_of(s, vec![0xAA], GameVersion::GameMaker8_0);
    assert_eq!(word(&p, 96), 1);
    assert_eq!(word(&p, 100), 1);
    let len = word(&p, 104) as usize;
    assert_eq!(inflate(&p[108..108 + len]), image);
    let off = 108 + len;
    assert_eq!(word(&p, off + 4), 255);
    assert_eq!(&p[off + 12..off + 17], &[1, 0, 0, 0, 0xAA]);
}

#[test]
fn trailing_metadata_placeholders() {
    let p = payload_of(base_settings(), vec![], GameVersion::GameMaker8_0);
    let mut off = 132;
    let author = AUTHOR.as_bytes();
    assert_eq!(word(&p, off) as usize, author.len());
    assert_eq!(&p[off + 4..off + 4 + author.len()], author);
    off += 4 + author.len();
    assert_eq!(word(&p, off), 0);
    off += 4;
    assert_eq!(&p[off..off + 8], &[0; 8]);
    off += 8;
    assert_eq!(word(&p, off), 0);
    off += 4;
    assert_eq!(&p[off..off + 16], &[0; 16]);
    off += 16;
    assert_eq!(&p[off..off + 16], &[0; 16]);
    off += 16;
    assert_eq!(&p[off..off + 8], &[0; 8]);
    off += 8;
    assert_eq!(p.len(), off);
}

#[test]
fn frame_is_version_length_bytes() {
    let b = frame_settings_block(&[0x78, 0x9C, 0x03, 0x00]);
    assert_eq!(b, vec![0x20, 0x03, 0, 0, 4, 0, 0, 0, 0x78, 0x9C, 0x03, 0x00]);
    let b = frame_settings_block(&[]);
    assert_eq!(b, vec![0x20, 0x03, 0, 0, 0, 0, 0, 0]);
}

#[test]
fn compress_round_trips() {
    let data = vec![5u8; 300];
    let c = compress_bytes(&data);
    assert_ne!(c, data);
    assert!(c.len() < data.len());
    assert_eq!(inflate(&c), data);
    assert_eq!(inflate(&compress_bytes(&[])), Vec::<u8>::new());
}

#[test]
fn stream_writes_little_endian_and_strings() {
    let mut enc = CompressedStream::new();
    enc.write_u32_le(0x01020304);
    enc.write_u32_le(-2i32 as u32);
    enc.write_u64_le(0x1122334455667788);
    enc.write_pas_string("héllo");
    enc.write_pas_string("");
    enc.write_words(&[9, 10]);
    let out = inflate(&enc.finish());
    let mut expected = vec![4, 3, 2, 1, 0xFE, 0xFF, 0xFF, 0xFF];
    expected.extend_from_slice(&[0x88, 0x77, 0x66, 0x55, 0x44, 0x33, 0x22, 0x11]);
    expected.extend_from_slice(&[6, 0, 0, 0]);
    expected.extend_from_slice("héllo".as_bytes());
    expected.extend_from_slice(&[0, 0, 0, 0, 9, 0, 0, 0, 10, 0, 0, 0]);
    assert_eq!(out, expected);
}

#[test]
fn payload_matches_chunk() {
    let mut s = base_settings();
    s.loading_bar = 2;
    s.backdata = Some(vec![1, 2, 3]);
    let mut enc = CompressedStream::new();
    write_payload(&mut enc, &s, &[4, 5], GameVersion::GameMaker8_1);
    let direct = inflate(&enc.finish());
    assert_eq!(direct, payload_of(s, vec![4, 5], GameVersion::GameMaker8_1));
    assert_eq!(word(&direct, 96), 1);
}

#[test]
fn pascal_string_into_plain_buffer() {
    let mut out: Vec<u8> = vec![0xAB];
    out.write_pas_string("abc");
    out.write_pas_string("");
    assert_eq!(out, vec![0xAB, 3, 0, 0, 0, b'a', b'b', b'c', 0, 0, 0, 0]);
}

#[test]
fn full_chunk_with_images_in_order() {
    let mut s = base_settings();
    s.loading_bar = 2;
    s.backdata = Some(vec![1; 40]);
    s.frontdata = Some(vec![2; 50]);
    s.custom_load_image = Some(vec![3; 60]);
    let p = payload_of(s, vec![0x10, 0x20, 0x30], GameVersion::GameMaker8_1);
    let mut off = 96;
    for expected in [vec![1u8; 40], vec![2u8; 50]] {
        assert_eq!(word(&p, off), 1);
        let len = word(&p, off + 4) as usize;
        assert_eq!(inflate(&p[off + 8..off + 8 + len]), expected);
        off += 8 + len;
    }
    assert_eq!(word(&p, off), 1);
    assert_eq!(word(&p, off + 4), 1);
    let len = word(&p, off + 8) as usize;
    assert_eq!(inflate(&p[off + 12..off + 12 + len]), vec![3u8; 60]);
    off += 12 + len;
    assert_eq!(word(&p, off + 4), 255);
    assert_eq!(&p[off + 12..off + 19], &[3, 0, 0, 0, 0x10, 0x20, 0x30]);
}
