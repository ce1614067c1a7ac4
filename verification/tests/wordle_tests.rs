use wordle::board::Board;
use wordle::game::{Game, GameError, Key, Status};
use wordle::keyboard::KeyboardState;
use wordle::letter::{state_rgb, Letter, LetterError, LetterState};
use wordle::words::{choose_word, is_valid_word, normalize_word};
use wordle::score::score;

fn chars(s: &str) -> Vec<char> {
    s.chars().collect()
}

fn letters(s: &str) -> Vec<Letter> {
    s.chars().map(|c| Letter::new(c, LetterState::Pending).unwrap()).collect()
}

fn words(list: &[&str]) -> Vec<String> {
    list.iter().map(|w| w.to_string()).collect()
}

fn play(game: &mut Game, word: &str) {
    for c in word.chars() {
        game.step(Key::Char(c));
    }
    game.step(Key::Enter);
}

#[test]
fn letter_new_accepts_letters_and_blank() {
    let l = Letter::new('Q', LetterState::Pending).unwrap();
    assert_eq!(l.character, 'Q');
    assert_eq!(l.state, LetterState::Pending);
    assert!(Letter::new('z', LetterState::Empty).is_ok());
    assert!(Letter::new('_', LetterState::Empty).is_ok());
}

#[test]
fn letter_new_rejects_other_characters() {
    assert_eq!(Letter::new('1', LetterState::Pending), Err(LetterError::InvalidCharacter));
    assert_eq!(Letter::new(' ', LetterState::Empty), Err(LetterError::InvalidCharacter));
    assert_eq!(Letter::new('#', LetterState::Empty), Err(LetterError::InvalidCharacter));
}

#[test]
fn score_erase_against_speed() {
    let marks = score(&chars("ERASE"), &chars("SPEED"));
    assert_eq!(
        marks,
        vec![
            LetterState::Present,
            LetterState::Absent,
            LetterState::Absent,
            LetterState::Present,
            LetterState::Present,
        ]
    );
}

#[test]
fn score_abbey_against_ebbed() {
    let marks = score(&chars("ABBEY"), &chars("EBBED"));
    assert_eq!(
        marks,
        vec![
            LetterState::Absent,
            LetterState::Correct,
            LetterState::Correct,
            LetterState::Correct,
            LetterState::Absent,
        ]
    );
}

#[test]
fn score_conservation_on_duplicates() {
    // SPEED holds two Es: of the five guessed Es, exactly two get a mark.
    let marks = score(&chars("EEEEE"), &chars("SPEED"));
    let non_absent = marks.iter().filter(|m| **m != LetterState::Absent).count();
    assert_eq!(non_absent, 2);
    // The exact matches (positions of the Es in SPEED) win first.
    assert_eq!(marks[2], LetterState::Correct);
    assert_eq!(marks[3], LetterState::Correct);
}

#[test]
fn score_exact_guess_is_all_correct() {
    let marks = score(&chars("CRANE"), &chars("CRANE"));
    assert!(marks.iter().all(|m| *m == LetterState::Correct));
}

#[test]
fn keyboard_correct_is_never_downgraded() {
    let mut kb = KeyboardState::new();
    kb.update('A', LetterState::Correct);
    kb.update('A', LetterState::Absent);
    kb.update('A', LetterState::Present);
    assert_eq!(kb.get('A'), LetterState::Correct);
}

#[test]
fn keyboard_upgrades_follow_precedence() {
    let mut kb = KeyboardState::new();
    assert_eq!(kb.get('Q'), LetterState::Pending);
    kb.update('Q', LetterState::Absent);
    assert_eq!(kb.get('Q'), LetterState::Absent);
    kb.update('Q', LetterState::Present);
    assert_eq!(kb.get('Q'), LetterState::Present);
    kb.update('Q', LetterState::Present);
    assert_eq!(kb.get('Q'), LetterState::Present);
    kb.update('Q', LetterState::Correct);
    assert_eq!(kb.get('Q'), LetterState::Correct);
}

#[test]
fn board_insert_delete_roundtrip() {
    let mut b = Board::new();
    b.insert('C');
    b.insert('R');
    assert_eq!(b.current_col(), 2);
    assert_eq!(b.cell(0, 1).character, 'R');
    b.delete();
    assert_eq!(b.current_col(), 1);
    assert_eq!(b.cell(0, 1).character, '_');
    assert_eq!(b.cell(0, 1).state, LetterState::Empty);
    assert_eq!(b.cell(0, 0).character, 'C');
}

#[test]
fn is_valid_word_tests_membership() {
    let list = words(&["CRANE", "SPEED"]);
    assert!(is_valid_word(&letters("CRANE"), &list));
    assert!(is_valid_word(&letters("SPEED"), &list));
    assert!(!is_valid_word(&letters("ZZZZZ"), &list));
    assert!(!is_valid_word(&letters("CRAN"), &list));
}

#[test]
fn is_valid_word_uppercases_the_candidate() {
    let list = words(&["HELLO"]);
    assert!(is_valid_word(&letters("hello"), &list));
    assert!(is_valid_word(&letters("HeLlO"), &list));
    assert!(!is_valid_word(&letters("hells"), &list));
}

#[test]
fn normalize_word_uppercases_and_checks_shape() {
    assert_eq!(normalize_word(&"crane".to_string()), Some(vec!['C', 'R', 'A', 'N', 'E']));
    assert_eq!(normalize_word(&"SpEeD".to_string()), Some(vec!['S', 'P', 'E', 'E', 'D']));
    assert_eq!(normalize_word(&"toolong".to_string()), None);
    assert_eq!(normalize_word(&"ab1de".to_string()), None);
    assert_eq!(normalize_word(&"".to_string()), None);
}

#[test]
fn choose_word_picks_an_element() {
    let list = words(&["HELLO"]);
    assert_eq!(choose_word(&list), Some("HELLO".to_string()));
    let several = words(&["AAAAA", "BBBBB", "CCCCC"]);
    let picked = choose_word(&several).unwrap();
    assert!(several.contains(&picked));
    assert_eq!(choose_word(&Vec::new()), None);
}

#[test]
fn game_new_rejects_bad_solution() {
    assert!(matches!(
        Game::new(chars("crane"), words(&["CRANE"])),
        Err(GameError::InvalidSolution)
    ));
    assert!(matches!(Game::new(chars("CRAN"), words(&["CRANE"])), Err(GameError::InvalidSolution)));
    assert!(Game::new(chars("CRANE"), words(&["CRANE"])).is_ok());
}

#[test]
fn game_win_on_exact_guess() {
    let mut g = Game::new(chars("CRANE"), words(&["CRANE", "SPEED"])).unwrap();
    assert_eq!(g.status(), Status::InProgress);
    play(&mut g, "crane");
    assert_eq!(g.status(), Status::Won);
    for j in 0..5 {
        assert_eq!(g.board().cell(0, j).state, LetterState::Correct);
    }
}

#[test]
fn game_loss_after_six_wrong_guesses() {
    let mut g = Game::new(chars("CRANE"), words(&["CRANE", "SPEED"])).unwrap();
    for _ in 0..6 {
        play(&mut g, "SPEED");
    }
    assert_eq!(g.status(), Status::Lost);
    assert_eq!(g.board().current_row(), 6);
}

#[test]
fn game_win_on_a_later_row() {
    let mut g = Game::new(chars("CRANE"), words(&["CRANE", "SPEED"])).unwrap();
    play(&mut g, "SPEED");
    assert_eq!(g.status(), Status::InProgress);
    play(&mut g, "CRANE");
    assert_eq!(g.status(), Status::Won);
}

#[test]
fn game_submit_rejected_when_row_incomplete() {
    let mut g = Game::new(chars("CRANE"), words(&["CRANE"])).unwrap();
    play(&mut g, "CRA");
    assert_eq!(g.board().current_row(), 0);
    assert_eq!(g.board().current_col(), 3);
    assert_eq!(g.status(), Status::InProgress);
}

#[test]
fn game_submit_rejected_when_word_unknown() {
    let mut g = Game::new(chars("CRANE"), words(&["CRANE"])).unwrap();
    play(&mut g, "ZZZZZ");
    assert_eq!(g.board().current_row(), 0);
    assert_eq!(g.board().current_col(), 5);
    assert_eq!(g.status(), Status::InProgress);
    // The letters still stand, unscored, so they can be deleted.
    assert_eq!(g.board().cell(0, 4).character, 'Z');
    assert_eq!(g.board().cell(0, 4).state, LetterState::Pending);
}

#[test]
fn game_escape_quits_without_touching_the_board() {
    let mut g = Game::new(chars("CRANE"), words(&["CRANE"])).unwrap();
    assert!(!g.step(Key::Char('c')));
    assert!(!g.step(Key::Char('r')));
    let quit = g.step(Key::Esc);
    assert!(quit);
    assert_eq!(g.status(), Status::InProgress);
    assert_eq!(g.board().current_col(), 2);
    assert_eq!(g.board().cell(0, 0).character, 'C');
    assert_eq!(g.board().cell(0, 1).character, 'R');
}

#[test]
fn game_insert_past_full_row_is_ignored() {
    let mut g = Game::new(chars("CRANE"), words(&["CRANE"])).unwrap();
    for c in "SPEED".chars() {
        g.step(Key::Char(c));
    }
    g.step(Key::Char('X'));
    assert_eq!(g.board().current_col(), 5);
    assert_eq!(g.board().cell(0, 4).character, 'D');
}

#[test]
fn game_delete_at_start_of_row_is_ignored() {
    let mut g = Game::new(chars("CRANE"), words(&["CRANE"])).unwrap();
    g.step(Key::Backspace);
    assert_eq!(g.board().current_col(), 0);
    g.step(Key::Char('c'));
    g.step(Key::Backspace);
    g.step(Key::Backspace);
    assert_eq!(g.board().current_col(), 0);
    assert_eq!(g.board().cell(0, 0).character, '_');
}

#[test]
fn game_board_and_keyboard_show_feedback_after_submit() {
    let mut g = Game::new(chars("SPEED"), words(&["ERASE", "SPEED"])).unwrap();
    play(&mut g, "ERASE");
    let expect = [
        LetterState::Present,
        LetterState::Absent,
        LetterState::Absent,
        LetterState::Present,
        LetterState::Present,
    ];
    for j in 0..5 {
        assert_eq!(g.board().cell(0, j).state, expect[j]);
    }
    assert_eq!(g.key_state('E'), LetterState::Present);
    assert_eq!(g.key_state('R'), LetterState::Absent);
    assert_eq!(g.key_state('A'), LetterState::Absent);
    assert_eq!(g.key_state('S'), LetterState::Present);
    assert_eq!(g.key_state('Q'), LetterState::Pending);
}

#[test]
fn game_keyboard_keeps_correct_across_later_guesses() {
    let mut g = Game::new(chars("CRANE"), words(&["CANES", "ACRES", "CRANE"])).unwrap();
    play(&mut g, "CANES");
    assert_eq!(g.key_state('C'), LetterState::Correct);
    // The next guess holds C in the wrong spot; the key stays Correct.
    play(&mut g, "ACRES");
    assert_eq!(g.key_state('C'), LetterState::Correct);
    assert_eq!(g.status(), Status::InProgress);
}

#[test]
fn game_keys_after_game_over_are_ignored() {
    let mut g = Game::new(chars("CRANE"), words(&["CRANE"])).unwrap();
    play(&mut g, "CRANE");
    assert_eq!(g.status(), Status::Won);
    g.step(Key::Char('x'));
    assert_eq!(g.board().current_row(), 1);
    assert_eq!(g.board().current_col(), 0);
    assert_eq!(g.board().cell(1, 0).character, '_');
}

#[test]
fn state_colors_match_the_palette() {
    assert_eq!(state_rgb(LetterState::Empty), (0, 0, 0));
    assert_eq!(state_rgb(LetterState::Pending), (0, 0, 0));
    assert_eq!(state_rgb(LetterState::Absent), (0x33, 0x33, 0x33));
    assert_eq!(state_rgb(LetterState::Present), (0xad, 0xad, 0x07));
    assert_eq!(state_rgb(LetterState::Correct), (0x17, 0x60, 0x02));
}

#[test]
fn game_reveals_its_solution() {
    let g = Game::new(chars("CRANE"), words(&["CRANE"])).unwrap();
    assert_eq!(g.solution_chars(), &vec!['C', 'R', 'A', 'N', 'E']);
}
