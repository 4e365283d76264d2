//! What the browser is asked and what it answers, and base64.
use stark_ui::platform::base64::{base64_decode, base64_encode};
use stark_ui::platform::page::{
    laid_out_size, on_text_entry, pasted_picture, png_of_data_url, raw_of, set_url_fragment,
    url_fragment, url_with_fragment, Clip, ElementBox, Location, RawPointer, Target,
};
use stark_ui::platform::shape::{drawn_on_light, normalize_pixels, turn};

#[test]
fn base64_is_spelled_with_its_padding() {
    for (bytes, text) in [
        (&b""[..], ""),
        (b"f", "Zg=="),
        (b"fo", "Zm8="),
        (b"foo", "Zm9v"),
        (b"foobar", "Zm9vYmFy"),
        (&[0xfb, 0xff, 0xbe], "+/++"),
    ] {
        assert_eq!(base64_encode(bytes), text);
        assert_eq!(base64_decode(text).as_deref(), Ok(bytes));
    }
}

#[test]
fn base64_reads_back_whatever_it_spelled() {
    let all: Vec<u8> = (0..=255u8).collect();
    for n in 0..all.len() {
        assert_eq!(base64_decode(&base64_encode(&all[..n])).as_ref(), Ok(&all[..n].to_vec()));
    }
}

#[test]
fn what_is_not_base64_is_refused_and_reading_stops_at_the_padding() {
    assert_eq!(base64_decode("Zm9v!"), Err("invalid base64".to_string()));
    assert_eq!(base64_decode("Zm 9v"), Err("invalid base64".to_string()));
    assert_eq!(base64_decode("Z\u{e9}"), Err("invalid base64".to_string()));
    assert_eq!(base64_decode("Zg==!!!"), Ok(b"f".to_vec()));
    assert_eq!(base64_decode("Zg"), Ok(b"f".to_vec()));
}

#[test]
fn a_png_is_read_off_the_browser_s_data_url() {
    assert_eq!(png_of_data_url("data:image/png;base64,Zm9v"), Ok(b"foo".to_vec()));
    assert_eq!(
        png_of_data_url("data:image/jpeg;base64,Zm9v"),
        Err("unexpected data URL".to_string())
    );
    assert_eq!(
        png_of_data_url("data:image/png;base64,?"),
        Err("invalid base64".to_string())
    );
}

fn target(tag: &str, kind: &str) -> Target {
    Target {
        editable: false,
        tag: tag.to_string(),
        kind: kind.to_string(),
    }
}

#[test]
fn a_text_field_owns_its_keystrokes_and_a_slider_does_not() {
    for (tag, kind, owns) in [
        ("TEXTAREA", "", true),
        ("SELECT", "", true),
        ("INPUT", "text", true),
        ("INPUT", "", true),
        ("INPUT", "range", false),
        ("INPUT", "checkbox", false),
        ("INPUT", "color", false),
        ("DIV", "text", false),
    ] {
        assert_eq!(on_text_entry(Some(&target(tag, kind))), owns, "{tag} {kind}");
    }
    assert!(on_text_entry(Some(&Target { editable: true, ..target("DIV", "") })));
    assert!(!on_text_entry(None));
}

#[test]
fn a_fragment_put_in_the_address_reads_back() {
    let location = Location {
        origin: "https://a.example".to_string(),
        pathname: "/p".to_string(),
        search: "?q".to_string(),
    };
    assert_eq!(
        url_with_fragment(Some(&location), "room"),
        "https://a.example/p?q#room"
    );
    assert_eq!(url_with_fragment(None, "room"), "#room");
    assert_eq!(set_url_fragment(&location, Some("room")), "#room");
    assert_eq!(set_url_fragment(&location, None), "/p?q");
    assert_eq!(url_fragment(Some("#room")).as_deref(), Some("room"));
    assert_eq!(url_fragment(Some("room")).as_deref(), Some("room"));
    assert_eq!(url_fragment(Some("##a")).as_deref(), Some("#a"));
    assert_eq!(url_fragment(None), None);
}

#[test]
fn a_paste_places_the_first_picture_and_never_in_a_text_field() {
    let clip = |kind: &str, mime: &str, file: bool| Clip {
        kind: kind.to_string(),
        mime: mime.to_string(),
        file,
    };
    let items = vec![
        clip("string", "image/png", true),
        clip("file", "text/html", true),
        clip("file", "image/png", false),
        clip("file", "image/webp", true),
        clip("file", "image/png", true),
    ];
    assert_eq!(pasted_picture(None, &items), Some(3));
    assert_eq!(pasted_picture(Some(&target("DIV", "")), &items), Some(3));
    assert_eq!(pasted_picture(Some(&target("INPUT", "text")), &items), None);
    assert_eq!(pasted_picture(None, &items[..3].to_vec()), None);
}

#[test]
fn an_element_is_never_laid_out_smaller_than_a_pixel() {
    assert_eq!(laid_out_size(0, -4), (1, 1));
    assert_eq!(laid_out_size(640, 480), (640, 480));
}

#[test]
fn a_box_has_its_far_edges_and_its_middles() {
    let b = ElementBox { left: 10, top: 20, width: 5, height: 8 };
    assert_eq!((b.right(), b.bottom()), (15, 28));
    assert_eq!((b.mid_x(), b.mid_y()), (25, 48));
}

#[test]
fn a_pen_is_told_from_the_other_pointers() {
    assert_eq!(raw_of("pen", 5, 32), RawPointer { pen: true, button: 5, buttons: 32 });
    assert!(!raw_of("mouse", -1, 0).pen);
    assert_eq!(RawPointer::default(), RawPointer { pen: false, button: 0, buttons: 0 });
}

fn picture(w: usize, h: usize, border: u8, inside: u8) -> Vec<u8> {
    let mut px = Vec::new();
    for y in 0..h {
        for x in 0..w {
            let edge = x == 0 || y == 0 || x + 1 == w || y + 1 == h;
            let v = if edge { border } else { inside };
            px.extend([v, v, v, 255]);
        }
    }
    px
}

#[test]
fn a_picture_drawn_dark_on_light_is_turned_round() {
    let (turned, inverted) = normalize_pixels(picture(4, 4, 255, 0), 4, 4);
    assert!(inverted);
    assert_eq!(turned, picture(4, 4, 0, 255));
    let (kept, inverted) = normalize_pixels(picture(4, 4, 0, 255), 4, 4);
    assert!(!inverted);
    assert_eq!(kept, picture(4, 4, 0, 255));
}

#[test]
fn what_is_clear_does_not_paint_and_a_single_pixel_is_all_border() {
    let clear = vec![255, 255, 255, 0];
    assert!(!drawn_on_light(&clear, 1, 1));
    assert!(drawn_on_light(&vec![255, 255, 255, 255], 1, 1));
    assert!(!drawn_on_light(&vec![127, 127, 127, 255], 1, 1));
    assert!(drawn_on_light(&vec![128, 128, 128, 255], 1, 1));
}

#[test]
fn turning_keeps_the_alpha_and_leaves_grey() {
    let mut px = vec![255, 0, 0, 9];
    turn(&mut px);
    assert_eq!(px, vec![179, 179, 179, 9]);
    turn(&mut px);
    assert_eq!(px, vec![76, 76, 76, 9]);
}
