use vstd::prelude::*;

use crate::keys::KeyCode;
use crate::types::{Game, Games, Wordle};
use crate::wordle::{is_new_game, wordle_key_step};

verus! {

/// The number of games on offer.
pub const GAME_COUNT: usize = 3;

impl Game {
    /// The game's position in the list.
    pub open spec fn index(self) -> int {
        match self {
            Game::Wordle => 0,
            Game::Snake => 1,
            Game::Tetris => 2,
        }
    }

    /// The game at position `i` of the list.
    pub open spec fn at(i: int) -> Game {
        if i == 0 {
            Game::Wordle
        } else if i == 1 {
            Game::Snake
        } else {
            Game::Tetris
        }
    }

    /// The game below this one, wrapping from the last to the first.
    pub open spec fn next_game(self) -> Game {
        Game::at((self.index() + 1) % (GAME_COUNT as int))
    }

    /// The game above this one, wrapping from the first to the last.
    pub open spec fn prev_game(self) -> Game {
        Game::at((self.index() + GAME_COUNT - 1) % (GAME_COUNT as int))
    }

    /// The game's name.
    pub open spec fn label(self) -> Seq<char> {
        match self {
            Game::Wordle => "Wordle"@,
            Game::Snake => "Snake"@,
            Game::Tetris => "Tetris"@,
        }
    }

    /// The game's one-line description.
    pub open spec fn blurb(self) -> Seq<char> {
        match self {
            Game::Wordle => "Try to guess a word"@,
            Game::Snake => "Consume fruit to grow longer"@,
            Game::Tetris => "Place falling blocks in a stack"@,
        }
    }

    /// The game's position in the list.
    pub fn position(&self) -> (r: usize)
        ensures
            r == self.index(),
            r < GAME_COUNT,
    {
        match self {
            Game::Wordle => 0,
            Game::Snake => 1,
            Game::Tetris => 2,
        }
    }

    /// The game at position `i` of the list.
    pub fn variant_at(i: usize) -> (r: Game)
        requires
            i < GAME_COUNT,
        ensures
            r == Game::at(i as int),
            r.index() == i,
    {
        if i == 0 {
            Game::Wordle
        } else if i == 1 {
            Game::Snake
        } else {
            Game::Tetris
        }
    }

    /// The game's name, as the list shows it.
    pub fn name(&self) -> (r: &'static str)
        ensures
            r@ == self.label(),
    {
        match self {
            Game::Wordle => "Wordle",
            Game::Snake => "Snake",
            Game::Tetris => "Tetris",
        }
    }

    /// The game's one-line description, as the list shows it.
    pub fn description(&self) -> (r: &'static str)
        ensures
            r@ == self.blurb(),
    {
        match self {
            Game::Wordle => "Try to guess a word",
            Game::Snake => "Consume fruit to grow longer",
            Game::Tetris => "Place falling blocks in a stack",
        }
    }

    /// The game below this one, wrapping from the last to the first.
    pub fn following(&self) -> (r: Game)
        ensures
            r == self.next_game(),
    {
        Game::variant_at((self.position() + 1) % GAME_COUNT)
    }

    /// The game above this one, wrapping from the first to the last.
    pub fn preceding(&self) -> (r: Game)
        ensures
            r == self.prev_game(),
    {
        Game::variant_at((self.position() + GAME_COUNT - 1) % GAME_COUNT)
    }
}

impl Games {
    /// The Wordle game, if there is one, is as play produces it.
    pub open spec fn wordle_wf(&self) -> bool {
        self.wordle matches Some(w) ==> w.wf()
    }

    /// Whether a key press can be handled: a game other than Wordle cannot
    /// be played or started yet, and a Wordle game being played must exist.
    pub open spec fn can_handle(&self, key: KeyCode) -> bool {
        match self.active_game {
            Some(Game::Wordle) => self.wordle is Some,
            Some(_) => false,
            None => key == KeyCode::Enter ==> self.focused_game == Game::Wordle,
        }
    }
}

/// What one key press does to the games pane and the redraw flag. While
/// Wordle is being played, the key goes to the Wordle game. Otherwise up and
/// down move the selection round the game list, Enter starts the selected
/// game (creating a Wordle game unless one exists already), and every other
/// key does nothing.
pub open spec fn games_key_step(
    games: Games,
    redraw: bool,
    key: KeyCode,
    new_games: Games,
    new_redraw: bool,
) -> bool {
    match games.active_game {
        Some(_) => {
            &&& new_games.focused_game == games.focused_game
            &&& new_games.active_game == games.active_game
            &&& games.wordle matches Some(w) && new_games.wordle matches Some(nw)
                && wordle_key_step(w, redraw, key, nw, new_redraw)
        },
        None => if key.is_up_key() {
            new_games.focused_game == games.focused_game.prev_game() && new_games.active_game
                == games.active_game && new_games.wordle == games.wordle && new_redraw
        } else if key.is_down_key() {
            new_games.focused_game == games.focused_game.next_game() && new_games.active_game
                == games.active_game && new_games.wordle == games.wordle && new_redraw
        } else if key == KeyCode::Enter {
            &&& new_games.focused_game == games.focused_game
            &&& new_games.active_game == Some(games.focused_game)
            &&& match games.wordle {
                Some(w) => new_games.wordle == Some(w),
                None => new_games.wordle matches Some(nw) && is_new_game(nw),
            }
            &&& new_redraw
        } else {
            new_games == games && new_redraw == redraw
        },
    }
}

impl Games {
    /// The games pane as a client first sees it: the list, with Wordle
    /// selected and no game started.
    pub fn new() -> (r: Self)
        ensures
            r.wordle is None,
            r.focused_game == Game::Wordle,
            r.active_game is None,
    {
        Games { wordle: None, focused_game: Game::Wordle, active_game: None }
    }

    /// Applies one key press to the games pane.
    pub fn handle_key(&mut self, key: KeyCode, needs_redraw: &mut bool)
        requires
            old(self).can_handle(key),
        ensures
            games_key_step(*old(self), *old(needs_redraw), key, *final(self), *final(needs_redraw)),
            old(self).wordle_wf() ==> final(self).wordle_wf(),
    {
        if let Some(game) = self.active_game {
            // Only Wordle can be playing (see `can_handle`).
            if let (Game::Wordle, Some(wordle)) = (game, self.wordle.as_mut()) {
                wordle.handle_key(key, needs_redraw);
            }
        } else if key.is_up() {
            self.focused_game = self.focused_game.preceding();
            *needs_redraw = true;
        } else if key.is_down() {
            self.focused_game = self.focused_game.following();
            *needs_redraw = true;
        } else if key == KeyCode::Enter {
            if self.wordle.is_none() {
                self.wordle = Some(Wordle::make_game());
            }
            self.active_game = Some(self.focused_game);
            *needs_redraw = true;
        }
    }
}

/// Moving down and then up returns to the same game, and so does moving up
/// and then down.
pub proof fn lemma_game_moves_undo(game: Game)
    ensures
        game.next_game().prev_game() == game,
        game.prev_game().next_game() == game,
{
}

/// Moving down once per game returns to the starting game, after visiting
/// every other game on the way.
pub proof fn lemma_game_moves_cycle(game: Game)
    ensures
        game.next_game() != game,
        game.next_game().next_game() != game,
        game.next_game().next_game().next_game() == game,
{
}

} // verus!
