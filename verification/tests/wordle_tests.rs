use tuiserve::keys::KeyCode;
use tuiserve::types::Wordle;
use tuiserve::wordle::{keyboard_rows, LetterStyle, GUESS_COUNT};
use tuiserve::words::WORD_LENGTH;

fn game_for(word: &str) -> Wordle {
    Wordle {
        correct_word: word.to_string(),
        guesses: Vec::new(),
        current_guess: String::new(),
    }
}

fn type_word(game: &mut Wordle, word: &str) {
    let mut redraw = false;
    for c in word.chars() {
        game.handle_key(KeyCode::Char(c), &mut redraw);
    }
}

#[test]
fn answer_list_starts_with_known_words() {
    let answers = Wordle::answer_list();
    assert_eq!(answers[0], "apple");
    assert_eq!(answers[1], "brave");
    assert!(answers.iter().all(|w| w.len() == WORD_LENGTH));
    assert!(answers.iter().all(|w| w.chars().all(|c| c.is_ascii_lowercase())));
}

#[test]
fn every_answer_is_allowed() {
    let allowed = Wordle::allowed_list();
    for answer in Wordle::answer_list() {
        assert!(allowed.contains(&answer));
        assert!(Wordle::is_allowed_guess(answer));
    }
    assert!(allowed.contains(&"adore"));
    assert!(allowed.iter().all(|w| w.len() == WORD_LENGTH));
}

#[test]
fn unknown_words_are_not_allowed() {
    assert!(!Wordle::is_allowed_guess("zzzzz"));
    assert!(!Wordle::is_allowed_guess("tigers"));
    assert!(!Wordle::is_allowed_guess(""));
}

#[test]
fn from_answer_picks_that_answer() {
    let game = Wordle::from_answer(2);
    assert_eq!(game.correct_word, "chair");
    assert!(game.guesses.is_empty());
    assert!(game.current_guess.is_empty());
}

#[test]
fn make_game_picks_an_answer() {
    let answers = Wordle::answer_list();
    for _ in 0..20 {
        let game = Wordle::make_game();
        assert!(answers.contains(&game.correct_word.as_str()));
        assert!(game.guesses.is_empty());
        assert!(game.current_guess.is_empty());
    }
}

#[test]
fn typing_stops_at_five_letters() {
    let mut game = game_for("tiger");
    let mut redraw = false;
    game.handle_key(KeyCode::Char('a'), &mut redraw);
    assert!(redraw);
    type_word(&mut game, "bcdefg");
    assert_eq!(game.current_guess, "abcde");
    let mut redraw = false;
    game.handle_key(KeyCode::Char('z'), &mut redraw);
    assert!(!redraw);
    assert_eq!(game.current_guess, "abcde");
}

#[test]
fn only_lowercase_letters_are_typed() {
    let mut game = game_for("tiger");
    let mut redraw = false;
    game.handle_key(KeyCode::Char('A'), &mut redraw);
    game.handle_key(KeyCode::Char('1'), &mut redraw);
    game.handle_key(KeyCode::Up, &mut redraw);
    assert_eq!(game.current_guess, "");
    assert!(!redraw);
}

#[test]
fn backspace_and_delete_erase() {
    let mut game = game_for("tiger");
    type_word(&mut game, "abc");
    let mut redraw = false;
    game.handle_key(KeyCode::Backspace, &mut redraw);
    assert!(redraw);
    assert_eq!(game.current_guess, "ab");
    game.handle_key(KeyCode::Delete, &mut redraw);
    game.handle_key(KeyCode::Delete, &mut redraw);
    assert_eq!(game.current_guess, "");
    let mut redraw = false;
    game.handle_key(KeyCode::Backspace, &mut redraw);
    assert!(redraw);
    assert_eq!(game.current_guess, "");
}

#[test]
fn enter_submits_allowed_words_only() {
    let mut game = game_for("tiger");
    type_word(&mut game, "zzzzz");
    let mut redraw = false;
    game.handle_key(KeyCode::Enter, &mut redraw);
    assert!(redraw);
    assert!(game.guesses.is_empty());
    assert_eq!(game.current_guess, "zzzzz");

    let mut game = game_for("tiger");
    type_word(&mut game, "abb");
    game.handle_key(KeyCode::Enter, &mut redraw);
    assert!(game.guesses.is_empty());
    assert_eq!(game.current_guess, "abb");

    let mut game = game_for("tiger");
    type_word(&mut game, "stone");
    game.handle_key(KeyCode::Enter, &mut redraw);
    assert_eq!(game.guesses, vec!["stone".to_string()]);
    assert_eq!(game.current_guess, "");
}

#[test]
fn solved_game_ignores_keys() {
    let mut game = game_for("tiger");
    type_word(&mut game, "tiger");
    let mut redraw = false;
    game.handle_key(KeyCode::Enter, &mut redraw);
    assert_eq!(game.guesses, vec!["tiger".to_string()]);
    let mut redraw = false;
    game.handle_key(KeyCode::Char('a'), &mut redraw);
    game.handle_key(KeyCode::Backspace, &mut redraw);
    game.handle_key(KeyCode::Enter, &mut redraw);
    assert!(!redraw);
    assert_eq!(game.current_guess, "");
    assert_eq!(game.guesses.len(), 1);
}

#[test]
fn type_then_erase_restores_the_guess() {
    let mut game = game_for("tiger");
    type_word(&mut game, "re");
    type_word(&mut game, "b");
    let mut redraw = false;
    game.handle_key(KeyCode::Backspace, &mut redraw);
    assert_eq!(game.current_guess, "re");
}

#[test]
fn color_at_follows_the_word() {
    let game = game_for("tiger");
    assert_eq!(game.color_at(0, 't'), LetterStyle::Correct);
    assert_eq!(game.color_at(1, 't'), LetterStyle::Hint);
    assert_eq!(game.color_at(1, 'z'), LetterStyle::Incorrect);
    assert_eq!(game.color_at(4, 'r'), LetterStyle::Correct);
}

#[test]
fn keyboard_colour_follows_the_guesses() {
    let mut game = game_for("tiger");
    assert_eq!(game.keyboard_colour('t'), LetterStyle::Blank);
    type_word(&mut game, "stone");
    let mut redraw = false;
    game.handle_key(KeyCode::Enter, &mut redraw);
    assert_eq!(game.keyboard_colour('t'), LetterStyle::Hint);
    assert_eq!(game.keyboard_colour('e'), LetterStyle::Hint);
    assert_eq!(game.keyboard_colour('s'), LetterStyle::Incorrect);
    assert_eq!(game.keyboard_colour('g'), LetterStyle::Blank);
    type_word(&mut game, "water");
    game.handle_key(KeyCode::Enter, &mut redraw);
    assert_eq!(game.guesses.len(), 2);
    assert_eq!(game.keyboard_colour('e'), LetterStyle::Correct);
    assert_eq!(game.keyboard_colour('r'), LetterStyle::Correct);
    assert_eq!(game.keyboard_colour('t'), LetterStyle::Hint);
    assert_eq!(game.keyboard_colour('w'), LetterStyle::Incorrect);
}

#[test]
fn board_shows_guesses_then_typing() {
    let mut game = game_for("tiger");
    type_word(&mut game, "stone");
    let mut redraw = false;
    game.handle_key(KeyCode::Enter, &mut redraw);
    type_word(&mut game, "ti");
    let board = game.board();
    assert_eq!(board.len(), GUESS_COUNT);
    assert!(board.iter().all(|row| row.len() == WORD_LENGTH));
    assert_eq!(board[0][0], ('s', LetterStyle::Incorrect));
    assert_eq!(board[0][1], ('t', LetterStyle::Hint));
    assert_eq!(board[1][0], ('t', LetterStyle::Typed));
    assert_eq!(board[1][1], ('i', LetterStyle::Typed));
    assert_eq!(board[1][2], (' ', LetterStyle::Blank));
    assert_eq!(board[5][4], (' ', LetterStyle::Blank));
}

#[test]
fn keyboard_lists_every_row() {
    let mut game = game_for("tiger");
    type_word(&mut game, "tiger");
    let mut redraw = false;
    game.handle_key(KeyCode::Enter, &mut redraw);
    let keyboard = game.keyboard();
    let layout = keyboard_rows();
    assert_eq!(keyboard.len(), 3);
    assert_eq!(layout[0][0], 'q');
    assert_eq!(keyboard[0][0], ('q', LetterStyle::Blank));
    assert_eq!(keyboard[0][4], ('t', LetterStyle::Correct));
    assert_eq!(keyboard[2][2], ('c', LetterStyle::Blank));
    assert_eq!(keyboard[1].len(), 9);
    assert_eq!(keyboard[2].len(), 7);
}

#[test]
fn typing_limit_counts_bytes() {
    let mut game = game_for("tiger");
    game.current_guess = "\u{e9}\u{e9}\u{e9}".to_string();
    let mut redraw = false;
    game.handle_key(KeyCode::Char('a'), &mut redraw);
    assert_eq!(game.current_guess, "\u{e9}\u{e9}\u{e9}");
    assert!(!redraw);
    game.current_guess = "\u{e9}\u{e9}".to_string();
    game.handle_key(KeyCode::Char('a'), &mut redraw);
    assert_eq!(game.current_guess, "\u{e9}\u{e9}a");
    assert!(redraw);
}

#[test]
fn keyboard_colour_with_a_long_guess() {
    let mut game = game_for("tiger");
    game.guesses = vec!["tigersxy".to_string()];
    assert_eq!(game.keyboard_colour('t'), LetterStyle::Correct);
    assert_eq!(game.keyboard_colour('q'), LetterStyle::Blank);
    assert!(game.colour_reaches_past_word('s'));
    assert!(!game.colour_reaches_past_word('t'));
    assert!(!game.can_draw());
    game.guesses = vec!["stone".to_string()];
    assert!(game.can_draw());
}
