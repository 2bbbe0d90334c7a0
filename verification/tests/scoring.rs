use mastermind::{Codebreaker, Color, ColorCombination};

const PALETTE: [Color; 6] = [
    Color::Red,
    Color::Blue,
    Color::Green,
    Color::Yellow,
    Color::Purple,
    Color::Orange,
];

fn score(secret: [Color; 4], guess: [Color; 4]) -> (u32, u32) {
    let secret = ColorCombination::new(secret[0], secret[1], secret[2], secret[3]);
    let guess = Codebreaker::new(guess[0], guess[1], guess[2], guess[3]);
    secret.compare_codebreaker_codemaker(&guess)
}

/// The four colours that the digits of `index`, written in base six, select.
fn combination_at(index: usize) -> [Color; 4] {
    [
        PALETTE[index % 6],
        PALETTE[index / 6 % 6],
        PALETTE[index / 36 % 6],
        PALETTE[index / 216 % 6],
    ]
}

fn all_different(colors: [Color; 4]) -> bool {
    (0..4).all(|i| (0..i).all(|j| colors[i] != colors[j]))
}

/// The score by the textbook rule: count the positions that agree, count the
/// pegs that the two sides have in common colour by colour, and take the
/// first from the second.
fn score_by_counting(secret: [Color; 4], guess: [Color; 4]) -> (u32, u32) {
    let exact = (0..4).filter(|&i| secret[i] == guess[i]).count() as u32;
    let mut common = 0;
    for color in PALETTE {
        let in_secret = secret.iter().filter(|&&c| c == color).count() as u32;
        let in_guess = guess.iter().filter(|&&c| c == color).count() as u32;
        common += in_secret.min(in_guess);
    }
    (exact, common - exact)
}

const SECRET: [Color; 4] = [Color::Red, Color::Blue, Color::Green, Color::Yellow];

#[test]
fn one_exact_and_two_displaced() {
    let guess = [Color::Red, Color::Green, Color::Blue, Color::Purple];
    assert_eq!(score(SECRET, guess), (1, 2));
}

#[test]
fn repeated_guess_color_is_counted_once() {
    let guess = [Color::Red, Color::Red, Color::Red, Color::Red];
    assert_eq!(score(SECRET, guess), (1, 0));
}

#[test]
fn reversed_secret_is_all_color_matches() {
    let guess = [Color::Yellow, Color::Green, Color::Blue, Color::Red];
    assert_eq!(score(SECRET, guess), (0, 4));
}

#[test]
fn secret_itself_scores_four_exact() {
    assert_eq!(score(SECRET, SECRET), (4, 0));
}

#[test]
fn every_valid_secret_scores_four_exact_against_itself() {
    let mut seen = 0;
    for index in 0..1296 {
        let secret = combination_at(index);
        if all_different(secret) {
            assert_eq!(score(secret, secret), (4, 0));
            seen += 1;
        }
    }
    assert_eq!(seen, 360);
}

#[test]
fn nothing_in_common_scores_nothing() {
    let guess = [Color::Purple, Color::Orange, Color::Purple, Color::Orange];
    assert_eq!(score(SECRET, guess), (0, 0));
}

#[test]
fn repeated_guess_color_in_wrong_places_matches_once() {
    let guess = [Color::Blue, Color::Red, Color::Red, Color::Red];
    assert_eq!(score(SECRET, guess), (0, 2));
    let guess = [Color::Yellow, Color::Yellow, Color::Yellow, Color::Purple];
    assert_eq!(score(SECRET, guess), (0, 1));
}

#[test]
fn exact_match_is_not_counted_again_as_color_match() {
    let guess = [Color::Blue, Color::Blue, Color::Blue, Color::Blue];
    assert_eq!(score(SECRET, guess), (1, 0));
    let guess = [Color::Red, Color::Red, Color::Blue, Color::Blue];
    assert_eq!(score(SECRET, guess), (1, 1));
}

#[test]
fn two_swapped_pegs() {
    let guess = [Color::Blue, Color::Red, Color::Green, Color::Yellow];
    assert_eq!(score(SECRET, guess), (2, 2));
}

#[test]
fn repeats_in_the_combination_are_scored_peg_by_peg() {
    let secret = [Color::Red, Color::Red, Color::Blue, Color::Blue];
    let guess = [Color::Red, Color::Blue, Color::Red, Color::Green];
    assert_eq!(score(secret, guess), (1, 2));
    let guess = [Color::Blue, Color::Blue, Color::Red, Color::Red];
    assert_eq!(score(secret, guess), (0, 4));
    let guess = [Color::Red, Color::Red, Color::Red, Color::Red];
    assert_eq!(score(secret, guess), (2, 0));
}

#[test]
fn pegs_never_add_up_to_more_than_four() {
    for s in 0..1296 {
        let secret = combination_at(s);
        if !all_different(secret) {
            continue;
        }
        for g in 0..1296 {
            let (exact, color) = score(secret, combination_at(g));
            assert!(exact <= 4);
            assert!(exact + color <= 4);
        }
    }
}

#[test]
fn score_agrees_with_counting_for_every_pair() {
    for s in 0..1296 {
        let secret = combination_at(s);
        for g in 0..1296 {
            let guess = combination_at(g);
            assert_eq!(score(secret, guess), score_by_counting(secret, guess));
        }
    }
}

#[test]
fn score_is_the_same_with_the_sides_exchanged() {
    for s in 0..1296 {
        let secret = combination_at(s);
        for g in 0..s {
            let guess = combination_at(g);
            assert_eq!(score(secret, guess), score(guess, secret));
        }
    }
}

#[test]
fn four_exact_only_for_the_secret() {
    for g in 0..1296 {
        let guess = combination_at(g);
        let (exact, _) = score(SECRET, guess);
        assert_eq!(exact == 4, guess == SECRET);
    }
}

#[test]
fn combination_is_shown_in_brackets() {
    let secret = ColorCombination::new(Color::Red, Color::Blue, Color::Green, Color::Yellow);
    assert_eq!(secret.get_codemaker_input(), "(Red, Blue, Green, Yellow)");
    let secret = ColorCombination::new(Color::Orange, Color::Purple, Color::Orange, Color::Red);
    assert_eq!(secret.get_codemaker_input(), "(Orange, Purple, Orange, Red)");
}

#[test]
fn combination_debug_output_names_the_fields() {
    let secret = ColorCombination::new(Color::Red, Color::Blue, Color::Green, Color::Yellow);
    assert_eq!(
        format!("{:?}", secret),
        "ColorCombination { color1: Red, color2: Blue, color3: Green, color4: Yellow }"
    );
}

#[test]
fn comparing_leaves_the_combination_unchanged() {
    let secret = ColorCombination::new(Color::Red, Color::Blue, Color::Green, Color::Yellow);
    let guess = Codebreaker::new(Color::Red, Color::Green, Color::Blue, Color::Purple);
    assert_eq!(secret.compare_codebreaker_codemaker(&guess), (1, 2));
    assert_eq!(secret.compare_codebreaker_codemaker(&guess), (1, 2));
    assert_eq!(secret.get_codemaker_input(), "(Red, Blue, Green, Yellow)");
}
