use profile_counter::badge::{badge_text, profile_badge};

fn expected_badge(count: &str) -> String {
    let mut text = String::new();
    text.push_str("<svg height=\"20\" width=\"120\" xmlns=\"http://www.w3.org/2000/svg\">\n");
    text.push_str("<rect fill=\"#555\" height=\"20\" width=\"50\"/>\n");
    text.push_str("<rect fill=\"#4c1\" height=\"50\" width=\"70\" x=\"50\"/>\n");
    text.push_str("<g fill=\"#fff\" font-family=\"DejaVu Sans, Verdana, Geneva, sans-serif\" ");
    text.push_str("font-size=\"11\" text-anchor=\"middle\">\n");
    text.push_str("<text x=\"25\" y=\"14\">\nviews\n</text>\n");
    text.push_str("<text x=\"85\" y=\"14\">\n");
    text.push_str(count);
    text.push_str("\n</text>\n</g>\n</svg>");
    text
}

fn occurrences(text: &str, part: &str) -> usize {
    text.matches(part).count()
}

#[test]
fn badge_is_written_out_exactly() {
    assert_eq!(badge_text(42), expected_badge("42"));
}

#[test]
fn badge_for_zero() {
    assert_eq!(badge_text(0), expected_badge("0"));
}

#[test]
fn badge_for_the_largest_count_keeps_the_frame() {
    assert_eq!(badge_text(i32::MAX), expected_badge("2147483647"));
}

#[test]
fn badge_canvas_is_120_by_20() {
    let badge = profile_badge(7);
    assert_eq!(badge.get_name(), "svg");
    let attributes = badge.get_attributes();
    assert_eq!(attributes.len(), 3);
    assert_eq!(&*attributes["width"], "120");
    assert_eq!(&*attributes["height"], "20");
    assert_eq!(&*attributes["xmlns"], "http://www.w3.org/2000/svg");
}

#[test]
fn badge_has_two_zones_and_one_group() {
    let badge = profile_badge(7);
    let children = badge.get_children();
    assert_eq!(children.len(), 3);
    assert_eq!(children[0].to_string(), "<rect fill=\"#555\" height=\"20\" width=\"50\"/>");
    assert_eq!(
        children[1].to_string(),
        "<rect fill=\"#4c1\" height=\"50\" width=\"70\" x=\"50\"/>"
    );
    assert!(children[2].to_string().starts_with("<g "));
    assert!(children[2].to_string().ends_with("</g>"));
}

#[test]
fn badge_right_zone_is_taller_than_the_canvas() {
    let text = badge_text(1);
    assert!(text.contains("<rect fill=\"#4c1\" height=\"50\" width=\"70\" x=\"50\"/>"));
    assert!(text.contains("<svg height=\"20\" width=\"120\""));
}

#[test]
fn badge_holds_the_count_once_in_the_value_label() {
    for count in [0, 3, 9, 77, 345, 4096, 99_999, 2_147_483_647] {
        let text = badge_text(count);
        let label = format!("<text x=\"85\" y=\"14\">\n{}\n</text>", count);
        assert_eq!(occurrences(&text, &label), 1);
        assert_eq!(occurrences(&text, "<text x=\"85\""), 1);
        assert_eq!(occurrences(&text, "<text "), 2);
        assert_eq!(occurrences(&text, &format!("\n{}\n", count)), 1);
        assert_eq!(occurrences(&text, "\nviews\n"), 1);
    }
}

#[test]
fn badge_title_is_in_the_middle_of_the_left_zone() {
    let text = badge_text(5);
    assert_eq!(occurrences(&text, "<text x=\"25\" y=\"14\">\nviews\n</text>"), 1);
}

#[test]
fn badge_text_shares_one_style() {
    let text = badge_text(5);
    let style = "<g fill=\"#fff\" font-family=\"DejaVu Sans, Verdana, Geneva, sans-serif\" \
                 font-size=\"11\" text-anchor=\"middle\">";
    assert_eq!(occurrences(&text, style), 1);
}

#[test]
fn badge_is_the_same_for_the_same_count() {
    for count in [0, 1, 12, 1234, 2_147_483_647] {
        let first = badge_text(count);
        let second = badge_text(count);
        assert_eq!(first.as_bytes(), second.as_bytes());
    }
}

#[test]
fn badge_differs_only_in_the_count() {
    let one = badge_text(1);
    let two = badge_text(2);
    assert_ne!(one, two);
    assert_eq!(one.replace("\n1\n", "\n2\n"), two);
}

#[test]
fn badge_for_a_negative_count_shows_the_sign() {
    assert_eq!(badge_text(-3), expected_badge("-3"));
}

#[test]
fn badge_text_is_the_badge_as_the_svg_crate_writes_it() {
    for count in [-1, 0, 8, 1_000_000] {
        assert_eq!(badge_text(count), profile_badge(count).to_string());
    }
}

#[test]
fn badge_frame_is_the_same_for_every_count() {
    let small = badge_text(1);
    let large = badge_text(2_147_483_647);
    let before = small.find("\n1\n").unwrap() + 1;
    let after = &small[before + 1..];
    assert_eq!(&large[..before], &small[..before]);
    assert_eq!(&large[before + 10..], after);
    assert_eq!(&large[before..before + 10], "2147483647");
    assert_eq!(large.len(), small.len() + 9);
    assert!(small[..before].ends_with("<text x=\"85\" y=\"14\">\n"));
    assert_eq!(after, "\n</text>\n</g>\n</svg>");
}
