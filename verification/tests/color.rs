//! Colour codes, and the bitmaps that the picker's tracks are painted with.
use stark_ui::panels::color::{
    bmp, bmp_data_url, commit_hex, end_pick, hex_of, initial_color, parse_hex, reseeds, shown, Grab,
    Rgb,
};
use stark_ui::platform::base64::base64_decode;

#[test]
fn hex_round_trips() {
    for (text, rgb) in [
        ("#000000", Rgb { r: 0, g: 0, b: 0 }),
        ("#ffffff", Rgb { r: 255, g: 255, b: 255 }),
        ("#ff0000", Rgb { r: 255, g: 0, b: 0 }),
    ] {
        assert_eq!(parse_hex(text), Some(rgb));
        assert_eq!(hex_of(rgb), text);
    }
    assert_eq!(parse_hex("#abc"), parse_hex("aabbcc"));
    assert_eq!(parse_hex(" #ABC "), parse_hex("#abc"));
    for bad in ["", "#", "#12", "#12345", "#gggggg", "12345678"] {
        assert_eq!(parse_hex(bad), None, "{bad:?}");
    }
}

#[test]
fn a_bmp_is_the_size_its_header_says() {
    for (w, h) in [(1, 128), (2, 3), (96, 96)] {
        let px = vec![Rgb { r: 128, g: 64, b: 32 }; w * h];
        let url = bmp_data_url(w, h, &px);
        let b64 = url
            .trim_start_matches("url(data:image/bmp;base64,")
            .trim_end_matches(')');
        let stride = (w * 3 + 3) & !3;
        assert_eq!(b64.len(), (54 + stride * h).div_ceil(3) * 4, "{w}x{h}");
        let bytes = base64_decode(b64).expect("it is spelled in base64");
        assert_eq!(bytes.len(), 54 + stride * h);
        assert_eq!(&bytes[..2], b"BM");
        assert_eq!(
            u32::from_le_bytes([bytes[2], bytes[3], bytes[4], bytes[5]]) as usize,
            bytes.len()
        );
    }
}

#[test]
fn a_pixel_is_kept_blue_first_and_the_rows_from_the_bottom() {
    let px = vec![
        Rgb { r: 1, g: 2, b: 3 },
        Rgb { r: 4, g: 5, b: 6 },
    ];
    let bytes = bmp(1, 2, &px);
    assert_eq!(&bytes[54..57], &[6, 5, 4]);
    assert_eq!(&bytes[58..61], &[3, 2, 1]);
}

#[test]
fn every_byte_reads_back_from_its_code() {
    for v in 0..=255u8 {
        let c = Rgb { r: v, g: 255 - v, b: v / 2 };
        assert_eq!(parse_hex(&hex_of(c)), Some(c));
    }
    assert_eq!(parse_hex("\u{3000}#0F8\n"), Some(Rgb { r: 0, g: 255, b: 136 }));
}

#[test]
fn a_typed_code_is_taken_once_and_only_if_it_reads() {
    let mut draft = Some("#102030".to_string());
    assert_eq!(commit_hex(&mut draft), Some(Rgb { r: 16, g: 32, b: 48 }));
    assert_eq!(commit_hex(&mut draft), None);
    let mut bad = Some("nothing".to_string());
    assert_eq!(commit_hex(&mut bad), None);
    assert_eq!(bad, None);
    let black = Rgb { r: 0, g: 0, b: 0 };
    assert_eq!(shown(&None, black), "#000000");
    assert_eq!(shown(&Some("#1".to_string()), black), "#1");
}

#[test]
fn a_pick_commits_only_where_one_was_begun() {
    let mut none: Option<Grab> = None;
    assert!(!end_pick(&mut none));
    let mut grab = Some(Grab::press(Some((3, 4)), false, (9, 9)));
    assert!(end_pick(&mut grab));
    assert!(grab.is_none());
}

#[test]
fn a_picker_is_seeded_again_when_its_seed_changes() {
    let mut seeded = 1u64;
    assert!(!reseeds(1, &mut seeded));
    assert!(reseeds(2, &mut seeded));
    assert!(!reseeds(2, &mut seeded));
    let start = initial_color();
    assert_eq!(
        [start.r, start.g, start.b].map(|c| f32::from_bits(c.bits)),
        [0.61, 0.04, 0.02]
    );
}
