use mastermind::{get_color_from_input, Color};

const PALETTE: [Color; 6] = [
    Color::Red,
    Color::Blue,
    Color::Green,
    Color::Yellow,
    Color::Purple,
    Color::Orange,
];

const INVALID: &str = "Invalid color, please try again.";

#[test]
fn display_names_are_capitalised() {
    assert_eq!(Color::Red.to_string(), "Red");
    assert_eq!(Color::Blue.to_string(), "Blue");
    assert_eq!(Color::Green.to_string(), "Green");
    assert_eq!(Color::Yellow.to_string(), "Yellow");
    assert_eq!(Color::Purple.to_string(), "Purple");
    assert_eq!(Color::Orange.to_string(), "Orange");
}

#[test]
fn as_str_agrees_with_to_string() {
    for color in PALETTE {
        assert_eq!(color.as_str(), color.to_string());
    }
}

#[test]
fn lower_case_names_are_read() {
    assert_eq!(get_color_from_input("red"), Ok(Color::Red));
    assert_eq!(get_color_from_input("blue"), Ok(Color::Blue));
    assert_eq!(get_color_from_input("green"), Ok(Color::Green));
    assert_eq!(get_color_from_input("yellow"), Ok(Color::Yellow));
    assert_eq!(get_color_from_input("purple"), Ok(Color::Purple));
    assert_eq!(get_color_from_input("orange"), Ok(Color::Orange));
}

#[test]
fn case_of_the_input_is_ignored() {
    assert_eq!(get_color_from_input("RED"), Ok(Color::Red));
    assert_eq!(get_color_from_input("Blue"), Ok(Color::Blue));
    assert_eq!(get_color_from_input("gReEn"), Ok(Color::Green));
    assert_eq!(get_color_from_input("YELLOW"), Ok(Color::Yellow));
    assert_eq!(get_color_from_input("purplE"), Ok(Color::Purple));
    assert_eq!(get_color_from_input("Orange"), Ok(Color::Orange));
}

#[test]
fn surrounding_white_space_is_ignored() {
    assert_eq!(get_color_from_input("  red"), Ok(Color::Red));
    assert_eq!(get_color_from_input("blue   "), Ok(Color::Blue));
    assert_eq!(get_color_from_input("\tgreen\n"), Ok(Color::Green));
    assert_eq!(get_color_from_input("yellow\r\n"), Ok(Color::Yellow));
    assert_eq!(get_color_from_input(" \t Purple \t "), Ok(Color::Purple));
    assert_eq!(get_color_from_input("\u{a0}orange\u{3000}"), Ok(Color::Orange));
}

#[test]
fn white_space_inside_a_name_is_not_ignored() {
    assert_eq!(get_color_from_input("re d"), Err(INVALID));
    assert_eq!(get_color_from_input("red blue"), Err(INVALID));
}

#[test]
fn unknown_tokens_are_rejected_with_the_message() {
    assert_eq!(get_color_from_input("pink"), Err(INVALID));
    assert_eq!(get_color_from_input(""), Err(INVALID));
    assert_eq!(get_color_from_input("   "), Err(INVALID));
    assert_eq!(get_color_from_input("redd"), Err(INVALID));
    assert_eq!(get_color_from_input("re"), Err(INVALID));
    assert_eq!(get_color_from_input("1"), Err(INVALID));
    assert_eq!(get_color_from_input("r\u{e9}d"), Err(INVALID));
}

#[test]
fn display_name_reads_back_as_the_same_color() {
    for color in PALETTE {
        assert_eq!(get_color_from_input(&color.to_string()), Ok(color));
    }
}

#[test]
fn from_token_takes_the_token_as_it_stands() {
    assert_eq!(Color::from_token("red"), Some(Color::Red));
    assert_eq!(Color::from_token("blue"), Some(Color::Blue));
    assert_eq!(Color::from_token("green"), Some(Color::Green));
    assert_eq!(Color::from_token("yellow"), Some(Color::Yellow));
    assert_eq!(Color::from_token("purple"), Some(Color::Purple));
    assert_eq!(Color::from_token("orange"), Some(Color::Orange));
    assert_eq!(Color::from_token("Red"), None);
    assert_eq!(Color::from_token(" red"), None);
    assert_eq!(Color::from_token("red "), None);
    assert_eq!(Color::from_token(""), None);
    assert_eq!(Color::from_token("violet"), None);
}

#[test]
fn colors_compare_by_variant() {
    for (i, a) in PALETTE.iter().enumerate() {
        for (j, b) in PALETTE.iter().enumerate() {
            assert_eq!(a == b, i == j);
        }
    }
}
