use vstd::prelude::*;
use vstd::string::StrSliceExecFns;
use vstd::utf8::encode_utf8;

use crate::keys::{is_lower_letter, KeyCode};
use crate::text::{contains_char, pop_char, push_char, same_text};
use crate::types::Wordle;
use crate::words::{
    allowed_words, answer_words, is_allowed, is_word, lemma_allowed_are_words,
    lemma_answers_are_words, WORD_LENGTH,
};

verus! {

broadcast use vstd::string::group_string_axioms;

/// The number of guess rows shown on the board.
pub const GUESS_COUNT: usize = 6;

/// How a letter is shown on the board or the keyboard.
#[derive(Debug, Clone, Copy, PartialEq, Eq, Structural)]
pub enum LetterStyle {
    /// In the word at this position.
    Correct,
    /// In the word, elsewhere.
    Hint,
    /// Not in the word.
    Incorrect,
    /// Typed for the guess being entered.
    Typed,
    /// Empty, or a key not yet used.
    Blank,
}

/// Calls `rand::random_range(0..len)`: an index below `len` drawn from the
/// thread-local generator. It panics on an empty range, hence `0 < len`.
#[verifier::external_body]
fn random_index(len: usize) -> (r: usize)
    requires
        0 < len,
    ensures
        r < len,
{
    rand::random_range(0..len)
}

/// How the letter `c`, guessed at position `pos`, is shown against `word`.
pub open spec fn letter_style_at(word: Seq<char>, pos: int, c: char) -> LetterStyle {
    if word[pos] == c {
        LetterStyle::Correct
    } else if word.contains(c) {
        LetterStyle::Hint
    } else {
        LetterStyle::Incorrect
    }
}

/// Some guess has `c` at a position where the word has it too.
pub open spec fn placed_in_guesses(guesses: Seq<Seq<char>>, word: Seq<char>, c: char) -> bool {
    exists|g: int, i: int|
        0 <= g < guesses.len() && 0 <= i < guesses[g].len() && #[trigger] guesses[g][i] == c
            && i < word.len() && word[i] == c
}

/// Some guess has `c` at a position past the end of `word`, and no guess
/// before that one in reading order (earlier guesses, then earlier positions
/// of the same guess) has `c` where the word has it.
pub open spec fn reaches_past_word(guesses: Seq<Seq<char>>, word: Seq<char>, c: char) -> bool {
    exists|g: int, i: int|
        {
            &&& 0 <= g < guesses.len()
            &&& 0 <= i < guesses[g].len()
            &&& #[trigger] guesses[g][i] == c
            &&& i >= word.len()
            &&& no_placement_before(guesses, word, c, g, i)
        }
}

/// No guess before position `i` of guess `g`, in reading order, has `c` where
/// `word` has it.
pub open spec fn no_placement_before(
    guesses: Seq<Seq<char>>,
    word: Seq<char>,
    c: char,
    g: int,
    i: int,
) -> bool {
    forall|h: int, j: int|
        0 <= h <= g && 0 <= j < guesses[h].len() && (h < g || j < i) ==> !(#[trigger] guesses[h][j]
            == c && j < word.len() && word[j] == c)
}

/// An order on styles by how much they reveal: correct above hint, hint above
/// incorrect, incorrect above blank.
pub open spec fn style_rank(style: LetterStyle) -> int {
    match style {
        LetterStyle::Correct => 3,
        LetterStyle::Hint => 2,
        LetterStyle::Incorrect => 1,
        LetterStyle::Typed => 0,
        LetterStyle::Blank => 0,
    }
}

/// The length in bytes of the UTF-8 encoding of `s`, as `str::len` reports it.
pub open spec fn byte_len(s: Seq<char>) -> usize {
    encode_utf8(s).len() as usize
}

/// Lowercase letters take one byte each.
pub proof fn lemma_letters_byte_len(s: Seq<char>)
    requires
        forall|i: int| 0 <= i < s.len() ==> is_lower_letter(#[trigger] s[i]),
    ensures
        encode_utf8(s).len() == s.len(),
    decreases s.len(),
{
    if s.len() > 0 {
        assert(is_lower_letter(s[0]));
        lemma_letters_byte_len(s.drop_first());
    }
}

/// Some guess uses `c`.
pub open spec fn used_in_guesses(guesses: Seq<Seq<char>>, c: char) -> bool {
    exists|g: int, i: int| 0 <= g < guesses.len() && 0 <= i < guesses[g].len() && #[trigger] guesses[g][i] == c
}

/// How the key for `c` is shown on the on-screen keyboard.
pub open spec fn keyboard_style(guesses: Seq<Seq<char>>, word: Seq<char>, c: char) -> LetterStyle {
    if placed_in_guesses(guesses, word, c) {
        LetterStyle::Correct
    } else if used_in_guesses(guesses, c) && word.contains(c) {
        LetterStyle::Hint
    } else if used_in_guesses(guesses, c) {
        LetterStyle::Incorrect
    } else {
        LetterStyle::Blank
    }
}

/// The rows of the on-screen keyboard.
pub open spec fn keyboard_layout() -> Seq<Seq<char>> {
    seq![
        seq!['q', 'w', 'e', 'r', 't', 'y', 'u', 'i', 'o', 'p'],
        seq!['a', 's', 'd', 'f', 'g', 'h', 'j', 'k', 'l'],
        seq!['z', 'x', 'c', 'v', 'b', 'n', 'm'],
    ]
}

/// The rows of the on-screen keyboard.
pub fn keyboard_rows() -> (r: Vec<Vec<char>>)
    ensures
        r@.len() == keyboard_layout().len(),
        forall|row: int| 0 <= row < r@.len() ==> (#[trigger] r@[row])@ == keyboard_layout()[row],
{
    let r = vec![
        vec!['q', 'w', 'e', 'r', 't', 'y', 'u', 'i', 'o', 'p'],
        vec!['a', 's', 'd', 'f', 'g', 'h', 'j', 'k', 'l'],
        vec!['z', 'x', 'c', 'v', 'b', 'n', 'm'],
    ];
    assert(r@[0]@ == keyboard_layout()[0]);
    assert(r@[1]@ == keyboard_layout()[1]);
    assert(r@[2]@ == keyboard_layout()[2]);
    r
}

/// What one key press does to a game of Wordle and to the redraw flag.
/// A solved game ignores every key. Otherwise a lowercase letter is typed
/// while the guess takes fewer bytes than a word has letters, Backspace and
/// Delete erase the last letter typed, Enter submits the guess when it takes
/// as many bytes as a word has letters and is a guessable word (every
/// guessable word is five lowercase letters, so a guess with whitespace
/// around it is never one, trimmed or not),
/// and every other key does nothing. The flag is set whenever the screen may
/// have changed; the word never changes.
pub open spec fn wordle_key_step(
    game: Wordle,
    redraw: bool,
    key: KeyCode,
    new_game: Wordle,
    new_redraw: bool,
) -> bool {
    let typed = game.current_guess@;
    if game.is_solved() {
        new_game == game && new_redraw == redraw
    } else if key.is_letter_key() {
        if byte_len(typed) < WORD_LENGTH {
            &&& new_game.correct_word == game.correct_word
            &&& new_game.guesses == game.guesses
            &&& key matches KeyCode::Char(c) && new_game.current_guess@ == typed.push(c)
            &&& new_redraw
        } else {
            new_game == game && new_redraw == redraw
        }
    } else if key == KeyCode::Backspace || key == KeyCode::Delete {
        &&& new_game.correct_word == game.correct_word
        &&& new_game.guesses == game.guesses
        &&& new_game.current_guess@ == if typed.len() == 0 {
            typed
        } else {
            typed.drop_last()
        }
        &&& new_redraw
    } else if key == KeyCode::Enter {
        if byte_len(typed) == WORD_LENGTH && is_allowed(typed) {
            &&& new_game.correct_word == game.correct_word
            &&& new_game.guesses@ == game.guesses@.push(game.current_guess)
            &&& new_game.current_guess@.len() == 0
            &&& new_redraw
        } else {
            new_game == game && new_redraw
        }
    } else {
        new_game == game && new_redraw == redraw
    }
}

/// A game as it starts: the word is one of the answers, and nothing has been
/// guessed or typed.
pub open spec fn is_new_game(game: Wordle) -> bool {
    &&& exists|i: int| 0 <= i < answer_words().len() && game.correct_word@ == (#[trigger] answer_words()[i])@
    &&& game.guesses@.len() == 0
    &&& game.current_guess@.len() == 0
    &&& game.wf()
}

impl Wordle {
    /// The guesses as sequences of chars.
    pub open spec fn guess_words(&self) -> Seq<Seq<char>> {
        self.guesses@.map_values(|g: String| g@)
    }

    /// A game as play produces it: the word and every guess are words of five
    /// lowercase letters, and the guess being typed is at most five lowercase
    /// letters.
    pub open spec fn wf(&self) -> bool {
        &&& is_word(self.correct_word@)
        &&& forall|g: int| 0 <= g < self.guesses@.len() ==> is_word(#[trigger] self.guesses@[g]@)
        &&& self.current_guess@.len() <= WORD_LENGTH
        &&& forall|i: int|
            0 <= i < self.current_guess@.len() ==> is_lower_letter(#[trigger] self.current_guess@[i])
    }

    /// No guess shown on the board is longer than the word, so every letter
    /// shown can be compared with the word.
    pub open spec fn first_rows_fit(&self) -> bool {
        forall|g: int|
            0 <= g < self.guesses@.len() && g < GUESS_COUNT ==> (#[trigger] self.guesses@[g])@.len()
                <= self.correct_word@.len()
    }

    /// No key of the on-screen keyboard is one whose colour would need a
    /// position past the end of the word.
    pub open spec fn keys_fit(&self) -> bool {
        forall|row: int, col: int|
            0 <= row < keyboard_layout().len() && 0 <= col < keyboard_layout()[row].len()
                ==> !reaches_past_word(
                self.guess_words(),
                self.correct_word@,
                #[trigger] keyboard_layout()[row][col],
            )
    }

    /// The last guess was the word: the game is won.
    pub open spec fn is_solved(&self) -> bool {
        self.guesses@.len() > 0 && self.guesses@.last()@ == self.correct_word@
    }

    /// The letter and style of the cell at `row` and `col` of the board: the
    /// guesses fill the first rows, the guess being typed the row after them,
    /// and every other cell is blank.
    pub open spec fn board_cell(&self, row: int, col: int) -> (char, LetterStyle) {
        let guesses = self.guess_words();
        if row < guesses.len() {
            if col < guesses[row].len() {
                (
                    guesses[row][col],
                    letter_style_at(self.correct_word@, col, guesses[row][col]),
                )
            } else {
                (' ', LetterStyle::Blank)
            }
        } else if row == guesses.len() && col < self.current_guess@.len() {
            (self.current_guess@[col], LetterStyle::Typed)
        } else {
            (' ', LetterStyle::Blank)
        }
    }

    /// A new game asking for the answer at `index`.
    pub fn from_answer(index: usize) -> (r: Self)
        requires
            index < answer_words().len(),
        ensures
            r.correct_word@ == answer_words()[index as int]@,
            r.guesses@.len() == 0,
            r.current_guess@.len() == 0,
            r.wf(),
    {
        let words = Wordle::answer_list();
        let correct_word = words[index].to_string();
        proof {
            lemma_answers_are_words();
            assert(is_word(answer_words()[index as int]@));
        }
        Wordle { correct_word, guesses: Vec::new(), current_guess: String::new() }
    }

    /// A new game asking for an answer drawn at random.
    pub fn make_game() -> (r: Self)
        ensures
            is_new_game(r),
    {
        let words = Wordle::answer_list();
        let index = random_index(words.len());
        Wordle::from_answer(index)
    }

    /// How the letter `c`, guessed at position `pos`, is shown.
    pub fn color_at(&self, pos: usize, c: char) -> (r: LetterStyle)
        requires
            pos < self.correct_word@.len(),
        ensures
            r == letter_style_at(self.correct_word@, pos as int, c),
    {
        let word = self.correct_word.as_str();
        if word.get_char(pos) == c {
            LetterStyle::Correct
        } else if contains_char(word, c) {
            LetterStyle::Hint
        } else {
            LetterStyle::Incorrect
        }
    }

    fn placed_in_some_guess(&self, c: char) -> (r: bool)
        requires
            !reaches_past_word(self.guess_words(), self.correct_word@, c),
        ensures
            r == placed_in_guesses(self.guess_words(), self.correct_word@, c),
    {
        let ghost guesses = self.guess_words();
        let word = self.correct_word.as_str();
        let word_len = word.unicode_len();
        let mut g: usize = 0;
        while g < self.guesses.len()
            invariant
                g <= self.guesses@.len(),
                guesses == self.guess_words(),
                word@ == self.correct_word@,
                word_len == word@.len(),
                !reaches_past_word(guesses, word@, c),
                no_placement_before(guesses, word@, c, g as int, 0),
            decreases self.guesses@.len() - g,
        {
            let guess = self.guesses[g].as_str();
            let n = guess.unicode_len();
            let mut i: usize = 0;
            while i < n
                invariant
                    g < self.guesses@.len(),
                    guesses == self.guess_words(),
                    guess@ == guesses[g as int],
                    word@ == self.correct_word@,
                    word_len == word@.len(),
                    n == guess@.len(),
                    i <= n,
                    !reaches_past_word(guesses, word@, c),
                    no_placement_before(guesses, word@, c, g as int, i as int),
                decreases n - i,
            {
                if guess.get_char(i) == c {
                    if i >= word_len {
                        assert(guesses[g as int][i as int] == c);
                        assert(reaches_past_word(guesses, word@, c));
                    }
                    if word.get_char(i) == c {
                        assert(guesses[g as int][i as int] == c);
                        return true;
                    }
                }
                i = i + 1;
            }
            assert(no_placement_before(guesses, word@, c, g + 1, 0));
            g = g + 1;
        }
        false
    }

    /// Whether the keyboard colour of `c` needs a position past the end of
    /// the word (see `reaches_past_word`).
    pub fn colour_reaches_past_word(&self, c: char) -> (r: bool)
        ensures
            r == reaches_past_word(self.guess_words(), self.correct_word@, c),
    {
        let ghost guesses = self.guess_words();
        let word = self.correct_word.as_str();
        let word_len = word.unicode_len();
        let mut g: usize = 0;
        while g < self.guesses.len()
            invariant
                g <= self.guesses@.len(),
                guesses == self.guess_words(),
                word@ == self.correct_word@,
                word_len == word@.len(),
                no_placement_before(guesses, word@, c, g as int, 0),
                forall|h: int, j: int|
                    0 <= h < g && 0 <= j < guesses[h].len() && #[trigger] guesses[h][j] == c
                        ==> j < word@.len(),
            decreases self.guesses@.len() - g,
        {
            let guess = self.guesses[g].as_str();
            let n = guess.unicode_len();
            let mut i: usize = 0;
            while i < n
                invariant
                    g < self.guesses@.len(),
                    guesses == self.guess_words(),
                    guess@ == guesses[g as int],
                    word@ == self.correct_word@,
                    word_len == word@.len(),
                    n == guess@.len(),
                    i <= n,
                    no_placement_before(guesses, word@, c, g as int, i as int),
                    forall|h: int, j: int|
                        ((0 <= h < g && 0 <= j < guesses[h].len()) || (h == g && 0 <= j < i))
                            && #[trigger] guesses[h][j] == c ==> j < word@.len(),
                decreases n - i,
            {
                if guess.get_char(i) == c {
                    assert(guesses[g as int][i as int] == c);
                    if i >= word_len {
                        return true;
                    }
                    if word.get_char(i) == c {
                        assert forall|h: int, j: int|
                            0 <= h < guesses.len() && 0 <= j < guesses[h].len()
                                && #[trigger] guesses[h][j] == c && j >= word@.len()
                                implies !no_placement_before(guesses, word@, c, h, j) by {
                            if h < g || (h == g && j < i) {
                            } else {
                                assert(guesses[g as int][i as int] == c);
                            }
                        }
                        return false;
                    }
                }
                i = i + 1;
            }
            assert(no_placement_before(guesses, word@, c, g + 1, 0));
            g = g + 1;
        }
        false
    }

    fn used_in_some_guess(&self, c: char) -> (r: bool)
        ensures
            r == used_in_guesses(self.guess_words(), c),
    {
        let ghost guesses = self.guess_words();
        let mut g: usize = 0;
        while g < self.guesses.len()
            invariant
                g <= self.guesses@.len(),
                guesses == self.guess_words(),
                forall|h: int, i: int|
                    0 <= h < g && 0 <= i < guesses[h].len() ==> #[trigger] guesses[h][i] != c,
            decreases self.guesses@.len() - g,
        {
            let guess = self.guesses[g].as_str();
            if contains_char(guess, c) {
                let ghost i = choose|i: int| 0 <= i < guess@.len() && guess@[i] == c;
                assert(guesses[g as int][i] == c);
                return true;
            }
            assert forall|i: int| 0 <= i < guesses[g as int].len() implies #[trigger] guesses[g as int][i] != c by {
                assert(guess@[i] != c);
            }
            g = g + 1;
        }
        false
    }

    /// How the key for `c` is shown on the on-screen keyboard: correct once
    /// some guess placed it right, a hint once some guess used it and the word
    /// holds it, incorrect once some guess used it otherwise, and blank before.
    pub fn keyboard_colour(&self, c: char) -> (r: LetterStyle)
        requires
            !reaches_past_word(self.guess_words(), self.correct_word@, c),
        ensures
            r == keyboard_style(self.guess_words(), self.correct_word@, c),
    {
        if self.placed_in_some_guess(c) {
            return LetterStyle::Correct;
        }
        let used = self.used_in_some_guess(c);
        if used && contains_char(self.correct_word.as_str(), c) {
            return LetterStyle::Hint;
        }
        if used {
            return LetterStyle::Incorrect;
        }
        LetterStyle::Blank
    }

    /// The letter and style of every cell of the board, row by row.
    pub fn board(&self) -> (r: Vec<Vec<(char, LetterStyle)>>)
        requires
            self.first_rows_fit(),
        ensures
            r@.len() == GUESS_COUNT,
            forall|row: int| 0 <= row < GUESS_COUNT ==> (#[trigger] r@[row])@.len() == WORD_LENGTH,
            forall|row: int, col: int|
                0 <= row < GUESS_COUNT && 0 <= col < WORD_LENGTH ==> #[trigger] r@[row]@[col]
                    == self.board_cell(row, col),
    {
        let mut rows: Vec<Vec<(char, LetterStyle)>> = Vec::new();
        let mut row: usize = 0;
        while row < GUESS_COUNT
            invariant
                row <= GUESS_COUNT,
                self.first_rows_fit(),
                rows@.len() == row,
                forall|r: int| 0 <= r < row ==> (#[trigger] rows@[r])@.len() == WORD_LENGTH,
                forall|r: int, col: int|
                    0 <= r < row && 0 <= col < WORD_LENGTH ==> #[trigger] rows@[r]@[col]
                        == self.board_cell(r, col),
            decreases GUESS_COUNT - row,
        {
            let mut cells: Vec<(char, LetterStyle)> = Vec::new();
            let mut col: usize = 0;
            while col < WORD_LENGTH
                invariant
                    col <= WORD_LENGTH,
                    row < GUESS_COUNT,
                    self.first_rows_fit(),
                    cells@.len() == col,
                    forall|k: int| 0 <= k < col ==> #[trigger] cells@[k] == self.board_cell(row as int, k),
                decreases WORD_LENGTH - col,
            {
                let cell = if row < self.guesses.len() {
                    let guess = self.guesses[row].as_str();
                    if col < guess.unicode_len() {
                        let c = guess.get_char(col);
                        (c, self.color_at(col, c))
                    } else {
                        (' ', LetterStyle::Blank)
                    }
                } else if row == self.guesses.len() && col < self.current_guess.as_str().unicode_len() {
                    (self.current_guess.as_str().get_char(col), LetterStyle::Typed)
                } else {
                    (' ', LetterStyle::Blank)
                };
                cells.push(cell);
                col = col + 1;
            }
            rows.push(cells);
            row = row + 1;
        }
        rows
    }

    /// The letter and style of every key of the on-screen keyboard, row by row.
    pub fn keyboard(&self) -> (r: Vec<Vec<(char, LetterStyle)>>)
        requires
            self.keys_fit(),
        ensures
            r@.len() == keyboard_layout().len(),
            forall|row: int|
                0 <= row < r@.len() ==> (#[trigger] r@[row])@.len() == keyboard_layout()[row].len(),
            forall|row: int, col: int|
                0 <= row < r@.len() && 0 <= col < keyboard_layout()[row].len() ==> #[trigger] r@[row]@[col]
                    == (
                    keyboard_layout()[row][col],
                    keyboard_style(self.guess_words(), self.correct_word@, keyboard_layout()[row][col]),
                ),
    {
        let layout = keyboard_rows();
        let mut rows: Vec<Vec<(char, LetterStyle)>> = Vec::new();
        let mut row: usize = 0;
        while row < layout.len()
            invariant
                row <= layout@.len(),
                layout@.len() == keyboard_layout().len(),
                forall|r: int| 0 <= r < layout@.len() ==> (#[trigger] layout@[r])@ == keyboard_layout()[r],
                self.keys_fit(),
                rows@.len() == row,
                forall|r: int|
                    0 <= r < row ==> (#[trigger] rows@[r])@.len() == keyboard_layout()[r].len(),
                forall|r: int, col: int|
                    0 <= r < row && 0 <= col < keyboard_layout()[r].len() ==> #[trigger] rows@[r]@[col]
                        == (
                        keyboard_layout()[r][col],
                        keyboard_style(self.guess_words(), self.correct_word@, keyboard_layout()[r][col]),
                    ),
            decreases layout@.len() - row,
        {
            let keys = &layout[row];
            let mut cells: Vec<(char, LetterStyle)> = Vec::new();
            let mut col: usize = 0;
            while col < keys.len()
                invariant
                    col <= keys@.len(),
                    keys@ == keyboard_layout()[row as int],
                    row < keyboard_layout().len(),
                    self.keys_fit(),
                    cells@.len() == col,
                    forall|k: int|
                        0 <= k < col ==> #[trigger] cells@[k] == (
                            keys@[k],
                            keyboard_style(self.guess_words(), self.correct_word@, keys@[k]),
                        ),
                decreases keys@.len() - col,
            {
                let c = keys[col];
                assert(c == keyboard_layout()[row as int][col as int]);
                cells.push((c, self.keyboard_colour(c)));
                col = col + 1;
            }
            rows.push(cells);
            row = row + 1;
        }
        rows
    }

    /// Whether the board and the on-screen keyboard can be computed: the
    /// guesses shown fit the word, and no key's colour needs a position past
    /// its end.
    pub fn can_draw(&self) -> (r: bool)
        ensures
            r == (self.first_rows_fit() && self.keys_fit()),
    {
        let word_len = self.correct_word.as_str().unicode_len();
        let mut g: usize = 0;
        while g < self.guesses.len() && g < GUESS_COUNT
            invariant
                g <= self.guesses@.len(),
                g <= GUESS_COUNT,
                word_len == self.correct_word@.len(),
                forall|h: int| 0 <= h < g ==> (#[trigger] self.guesses@[h])@.len() <= word_len,
            decreases self.guesses@.len() - g,
        {
            if self.guesses[g].as_str().unicode_len() > word_len {
                return false;
            }
            g = g + 1;
        }
        let layout = keyboard_rows();
        let mut row: usize = 0;
        while row < layout.len()
            invariant
                self.first_rows_fit(),
                row <= layout@.len(),
                layout@.len() == keyboard_layout().len(),
                forall|r: int| 0 <= r < layout@.len() ==> (#[trigger] layout@[r])@ == keyboard_layout()[r],
                forall|r: int, col: int|
                    0 <= r < row && 0 <= col < keyboard_layout()[r].len() ==> !reaches_past_word(
                        self.guess_words(),
                        self.correct_word@,
                        #[trigger] keyboard_layout()[r][col],
                    ),
            decreases layout@.len() - row,
        {
            let keys = &layout[row];
            let mut col: usize = 0;
            while col < keys.len()
                invariant
                    keys@ == keyboard_layout()[row as int],
                    row < keyboard_layout().len(),
                    col <= keys@.len(),
                    forall|k: int|
                        0 <= k < col ==> !reaches_past_word(
                            self.guess_words(),
                            self.correct_word@,
                            #[trigger] keyboard_layout()[row as int][k],
                        ),
                decreases keys@.len() - col,
            {
                if self.colour_reaches_past_word(keys[col]) {
                    return false;
                }
                col = col + 1;
            }
            row = row + 1;
        }
        true
    }

    /// Whether `guess` is one of the guessable words.
    pub fn is_allowed_guess(guess: &str) -> (r: bool)
        ensures
            r == is_allowed(guess@),
    {
        let allowed = Wordle::allowed_list();
        let mut i: usize = 0;
        while i < allowed.len()
            invariant
                i <= allowed@.len(),
                allowed@ == allowed_words(),
                forall|j: int| 0 <= j < i ==> (#[trigger] allowed_words()[j])@ != guess@,
            decreases allowed@.len() - i,
        {
            if same_text(allowed[i], guess) {
                assert(allowed_words()[i as int]@ == guess@);
                return true;
            }
            i = i + 1;
        }
        false
    }

    /// Applies one key press. A solved game ignores every key. Otherwise a
    /// lowercase letter is typed while the guess is shorter than a word,
    /// Backspace and Delete erase the last letter typed, and Enter submits
    /// the guess when it is a full, guessable word. `needs_redraw` is set
    /// whenever the screen may have changed.
    pub fn handle_key(&mut self, key: KeyCode, needs_redraw: &mut bool)
        ensures
            wordle_key_step(*old(self), *old(needs_redraw), key, *final(self), *final(needs_redraw)),
            old(self).wf() ==> final(self).wf(),
    {
        let count = self.guesses.len();
        if count > 0 && self.guesses[count - 1] == self.correct_word {
            return;
        }
        match key.letter() {
            Some(c) => {
                proof {
                    if self.wf() {
                        lemma_letters_byte_len(self.current_guess@);
                    }
                }
                if self.current_guess.as_str().len() < WORD_LENGTH {
                    push_char(&mut self.current_guess, c);
                    *needs_redraw = true;
                }
            },
            None => match key {
                KeyCode::Backspace | KeyCode::Delete => {
                    pop_char(&mut self.current_guess);
                    *needs_redraw = true;
                },
                KeyCode::Enter => {
                    if self.current_guess.as_str().len() == WORD_LENGTH
                        && Wordle::is_allowed_guess(self.current_guess.as_str()) {
                        proof {
                            lemma_allowed_are_words();
                        }
                        self.guesses.push(self.current_guess.clone());
                        self.current_guess = String::new();
                    }
                    *needs_redraw = true;
                },
                _ => {},
            },
        }
    }
}

/// Typing a letter and then erasing it gives back the game as it was before
/// the letter, whenever the letter was taken.
pub proof fn lemma_type_then_erase(
    game: Wordle,
    redraw: bool,
    c: char,
    typed: Wordle,
    typed_redraw: bool,
    erased: Wordle,
    erased_redraw: bool,
)
    requires
        !game.is_solved(),
        is_lower_letter(c),
        byte_len(game.current_guess@) < WORD_LENGTH,
        wordle_key_step(game, redraw, KeyCode::Char(c), typed, typed_redraw),
        wordle_key_step(typed, typed_redraw, KeyCode::Backspace, erased, erased_redraw),
    ensures
        erased.current_guess@ == game.current_guess@,
        erased.guesses == game.guesses,
        erased.correct_word == game.correct_word,
{
    assert(KeyCode::Char(c).is_letter_key());
    assert(typed.current_guess@.drop_last() =~= game.current_guess@);
}

/// Typing a letter and then erasing it, with Backspace or Delete, gives back
/// the game as it was before the letter, whenever the letter was taken.
pub proof fn lemma_type_then_erase_with(
    game: Wordle,
    redraw: bool,
    c: char,
    typed: Wordle,
    typed_redraw: bool,
    erase: KeyCode,
    erased: Wordle,
    erased_redraw: bool,
)
    requires
        !game.is_solved(),
        is_lower_letter(c),
        byte_len(game.current_guess@) < WORD_LENGTH,
        wordle_key_step(game, redraw, KeyCode::Char(c), typed, typed_redraw),
        erase == KeyCode::Backspace || erase == KeyCode::Delete,
        wordle_key_step(typed, typed_redraw, erase, erased, erased_redraw),
    ensures
        erased.current_guess@ == game.current_guess@,
        erased.guesses == game.guesses,
        erased.correct_word == game.correct_word,
{
    assert(KeyCode::Char(c).is_letter_key());
    assert(typed.current_guess@.drop_last() =~= game.current_guess@);
}

/// A guessed letter is correct where the word has it at that position, a
/// hint where the word has it at some other position, and incorrect where
/// the word does not have it at all.
pub proof fn lemma_letter_styles(word: Seq<char>, pos: int, c: char)
    requires
        0 <= pos < word.len(),
    ensures
        word[pos] == c ==> letter_style_at(word, pos, c) == LetterStyle::Correct,
        (word[pos] != c && exists|j: int| 0 <= j < word.len() && j != pos && word[j] == c)
            ==> letter_style_at(word, pos, c) == LetterStyle::Hint,
        (forall|j: int| 0 <= j < word.len() ==> word[j] != c) ==> letter_style_at(word, pos, c)
            == LetterStyle::Incorrect,
{
    if word[pos] != c && exists|j: int| 0 <= j < word.len() && j != pos && word[j] == c {
        let j = choose|j: int| 0 <= j < word.len() && j != pos && word[j] == c;
        assert(word.contains(c)) by {
            assert(word[j] == c);
        }
    }
}

/// Backspace and Delete each erase exactly the last letter typed, and
/// nothing else: in a game not yet won, both leave the guess one letter
/// shorter (or empty, if it was), keep the guesses made, and ask for a
/// redraw; the two keys give the same game.
pub proof fn lemma_erase_keys_remove_one_letter(
    game: Wordle,
    redraw: bool,
    after_delete: Wordle,
    delete_redraw: bool,
    after_backspace: Wordle,
    backspace_redraw: bool,
)
    requires
        !game.is_solved(),
        wordle_key_step(game, redraw, KeyCode::Delete, after_delete, delete_redraw),
        wordle_key_step(game, redraw, KeyCode::Backspace, after_backspace, backspace_redraw),
    ensures
        game.current_guess@.len() > 0 ==> after_delete.current_guess@.len()
            == game.current_guess@.len() - 1 && after_delete.current_guess@
            == game.current_guess@.subrange(0, game.current_guess@.len() - 1),
        game.current_guess@.len() == 0 ==> after_delete.current_guess@.len() == 0,
        after_delete.guesses == game.guesses,
        after_delete.correct_word == game.correct_word,
        after_delete.current_guess@ == after_backspace.current_guess@,
        after_delete.guesses == after_backspace.guesses,
        delete_redraw && backspace_redraw,
{
}

/// Submitting the word itself, once it is typed in full, wins the game.
pub proof fn lemma_guessing_the_word_wins(
    game: Wordle,
    redraw: bool,
    after: Wordle,
    after_redraw: bool,
)
    requires
        !game.is_solved(),
        game.current_guess@ == game.correct_word@,
        byte_len(game.current_guess@) == WORD_LENGTH,
        is_allowed(game.current_guess@),
        wordle_key_step(game, redraw, KeyCode::Enter, after, after_redraw),
    ensures
        after.is_solved(),
        after.guesses@.len() == game.guesses@.len() + 1,
{
}

/// A won game stays won, whatever key is pressed.
pub proof fn lemma_solved_game_is_final(
    game: Wordle,
    redraw: bool,
    key: KeyCode,
    after: Wordle,
    after_redraw: bool,
)
    requires
        game.is_solved(),
        wordle_key_step(game, redraw, key, after, after_redraw),
    ensures
        after == game,
        after.is_solved(),
{
}

/// The keyboard never shows less about a key as more guesses are made: a
/// correct key stays correct, a hint becomes correct or stays a hint, and a
/// used key never goes back to blank.
pub proof fn lemma_keyboard_keeps_knowledge(
    guesses: Seq<Seq<char>>,
    word: Seq<char>,
    next_guess: Seq<char>,
    c: char,
)
    ensures
        style_rank(keyboard_style(guesses.push(next_guess), word, c)) >= style_rank(
            keyboard_style(guesses, word, c),
        ),
{
    let more = guesses.push(next_guess);
    if placed_in_guesses(guesses, word, c) {
        let (g, i) = choose|g: int, i: int|
            0 <= g < guesses.len() && 0 <= i < guesses[g].len() && #[trigger] guesses[g][i] == c
                && i < word.len() && word[i] == c;
        assert(more[g][i] == c);
    }
    if used_in_guesses(guesses, c) {
        let (g, i) = choose|g: int, i: int|
            0 <= g < guesses.len() && 0 <= i < guesses[g].len() && #[trigger] guesses[g][i] == c;
        assert(more[g][i] == c);
    }
}

/// The keyboard shows every guessed letter at least as revealingly as the
/// board does: a letter shown correct on the board is correct on the
/// keyboard, a hint is at least a hint, and an incorrect letter is at least
/// marked used.
pub proof fn lemma_keyboard_at_least_board(game: Wordle, row: int, col: int)
    requires
        0 <= row < game.guesses@.len(),
        0 <= col < game.guesses@[row]@.len(),
        col < game.correct_word@.len(),
    ensures
        style_rank(
            keyboard_style(game.guess_words(), game.correct_word@, game.board_cell(row, col).0),
        ) >= style_rank(game.board_cell(row, col).1),
{
    let guesses = game.guess_words();
    let c = guesses[row][col];
    assert(game.board_cell(row, col).0 == c);
    assert(guesses[row][col] == c);
    assert(used_in_guesses(guesses, c));
}

} // verus!
