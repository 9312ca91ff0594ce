use hello_rs::text::{calc_whitespace, calc_with_hostname, get_kernel, get_release, shorten, upper_first, visible_width};
use unicode_segmentation::UnicodeSegmentation;

fn width(s: &str) -> usize {
    s.graphemes(true).count()
}

#[test]
fn body_row_pads_ascii_to_width() {
    let r = calc_whitespace("│ abc".to_string());
    assert_eq!(r, format!("│ abc{}│", " ".repeat(40)));
    assert_eq!(width(&r), 46);
}

#[test]
fn body_row_pads_emoji_by_visible_width() {
    for text in ["│ 💻 Arch Linux", "│ 🏙️ Good afternoon, Zoë", "│ 1️⃣ 1 update", ""] {
        let r = calc_whitespace(text.to_string());
        assert_eq!(width(&r), 46, "{}", text);
        assert!(r.ends_with(" │") || text.is_empty());
    }
}

#[test]
fn header_row_uses_rules_and_corner() {
    let r = calc_with_hostname("╭─box".to_string());
    assert_eq!(r, format!("╭─box{}╮", "─".repeat(50)));
    assert_eq!(width(&r), 56);
}

#[test]
fn overlong_row_is_kept_whole() {
    let text = "x".repeat(50);
    let r = calc_whitespace(text.clone());
    assert_eq!(r, format!("{}│", text));
}

#[test]
fn visible_width_counts_clusters() {
    assert_eq!(visible_width(""), 0);
    assert_eq!(visible_width("abc"), 3);
    assert_eq!(visible_width("🏙️ é"), 3);
    assert_eq!(visible_width("1️⃣"), 1);
}

#[test]
fn short_text_is_kept() {
    let t = "a".repeat(41);
    assert_eq!(shorten(&t), t);
}

#[test]
fn long_text_is_cut_to_thirty_seven_and_dots() {
    let t = "b".repeat(42);
    let r = shorten(&t);
    assert_eq!(r, format!("{}...", "b".repeat(37)));
    assert_eq!(width(&r), 40);
}

#[test]
fn long_text_with_emoji_is_cut_between_clusters() {
    let t = "🏙️".repeat(45);
    let r = shorten(&t);
    assert_eq!(r, format!("{}...", "🏙️".repeat(37)));
    assert_eq!(width(&r), 40);
}

#[test]
fn kernel_drops_line_break() {
    assert_eq!(get_kernel("Linux 6.1.0-arch1-1\n"), "Linux 6.1.0-arch1-1");
    let long = format!("{}\n", "k".repeat(45));
    assert_eq!(get_kernel(&long), format!("{}...", "k".repeat(37)));
}

#[test]
fn release_drops_quotes_and_line_break() {
    assert_eq!(get_release("\"Arch Linux\"\n"), "Arch Linux");
    assert_eq!(get_release("Ubuntu 22.04.3 LTS\n"), "Ubuntu 22.04.3 LTS");
    let long = format!("\"{}\"\n", "r".repeat(50));
    assert_eq!(get_release(&long), format!("{}...", "r".repeat(37)));
}

#[test]
fn upper_first_capitalises() {
    assert_eq!(upper_first("gnome".to_string()), "Gnome");
    assert_eq!(upper_first("".to_string()), "");
    assert_eq!(upper_first("ßx".to_string()), "SSx");
    assert_eq!(upper_first("KDE".to_string()), "KDE");
}
