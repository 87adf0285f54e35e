use islandbridge::richtext::{format_rich_text, render_token, RichText};

fn item(progression: bool, useful: bool, trap: bool) -> RichText {
    RichText::Item { name: "Sword".to_string(), progression, useful, trap }
}

#[test]
fn item_no_flags() {
    assert_eq!(render_token(&item(false, false, false)), "**Sword**");
}

#[test]
fn item_useful_only() {
    assert_eq!(render_token(&item(false, true, false)), "***Sword***");
}

#[test]
fn item_progression_only() {
    assert_eq!(render_token(&item(true, false, false)), "__**Sword**__");
}

#[test]
fn item_progression_useful() {
    assert_eq!(render_token(&item(true, true, false)), "__***Sword***__");
}

#[test]
fn item_trap_only() {
    assert_eq!(render_token(&item(false, false, true)), "~~**Sword**~~");
}

#[test]
fn item_trap_useful() {
    assert_eq!(render_token(&item(false, true, true)), "~~***Sword***~~");
}

#[test]
fn item_trap_progression() {
    assert_eq!(render_token(&item(true, false, true)), "~~__**Sword**__~~");
}

#[test]
fn item_all_flags_nesting() {
    // strikethrough(underline(italic(bold(name))))
    assert_eq!(render_token(&item(true, true, true)), "~~__***Sword***__~~");
}

#[test]
fn empty_sequence_renders_prefix_only() {
    assert_eq!(format_rich_text(&vec![]), "-# ");
}

#[test]
fn mixed_tokens_in_order() {
    let tokens = vec![
        RichText::Player { name: "Alice".to_string() },
        RichText::Text { text: " found ".to_string() },
        RichText::Item {
            name: "Bomb".to_string(),
            progression: false,
            useful: false,
            trap: false,
        },
        RichText::Text { text: " at ".to_string() },
        RichText::Location { name: "Cave".to_string() },
    ];
    assert_eq!(
        format_rich_text(&tokens),
        "-# **Alice** found **Bomb** at **Cave**"
    );
}

#[test]
fn name_like_tokens_are_bolded() {
    let tokens = vec![
        RichText::PlayerName { name: "Bob".to_string() },
        RichText::EntranceName { name: "Door".to_string() },
        RichText::Color { text: "red text".to_string() },
    ];
    assert_eq!(format_rich_text(&tokens), "-# **Bob****Door****red text**");
}

#[test]
fn plain_text_unchanged() {
    let tokens = vec![RichText::Text { text: "just words".to_string() }];
    assert_eq!(format_rich_text(&tokens), "-# just words");
}

#[test]
fn rendering_is_deterministic() {
    let build = || {
        vec![
            RichText::Player { name: "Zed".to_string() },
            RichText::Item {
                name: "Key".to_string(),
                progression: true,
                useful: false,
                trap: true,
            },
            RichText::Text { text: "!".to_string() },
        ]
    };
    let first = format_rich_text(&build());
    let second = format_rich_text(&build());
    assert_eq!(first, second);
}
