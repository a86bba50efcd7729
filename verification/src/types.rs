use vstd::prelude::*;

verus! {

/// `tokio::time::Instant`, carried by the counter without being read.
#[verifier::external_type_specification]
#[verifier::external_body]
pub struct ExInstant(tokio::time::Instant);

/// The pane shown to the right of the sidebar.
#[derive(Debug, Clone, Copy, PartialEq, Eq, Structural)]
pub enum MainPane {
    Counter,
    Games,
}

/// Which part of the screen receives key presses.
#[derive(Debug, Clone, Copy, PartialEq, Eq, Structural)]
pub enum Focus {
    Sidebar,
    Pane,
}

/// The entries of the navigation sidebar, in the order they are listed.
#[derive(Debug, Clone, Copy, PartialEq, Eq, Structural)]
pub enum SidebarItem {
    Counter,
    Games,
}

/// The navigation sidebar: which entry is selected.
pub struct Sidebar {
    pub item: SidebarItem,
}

/// The shared counter as one client sees it.
pub struct Counter {
    pub count: u32,
    pub last_increment_time: Option<tokio::time::Instant>,
}

/// The games on offer, in the order they are listed.
#[derive(Debug, Clone, Copy, PartialEq, Eq, Structural)]
pub enum Game {
    Wordle,
    Snake,
    Tetris,
}

/// A game of Wordle: the word to find, the guesses made so far, and the
/// letters typed for the next guess.
pub struct Wordle {
    pub correct_word: String,
    pub guesses: Vec<String>,
    pub current_guess: String,
}

/// A game of Snake on a square board. `tiles[0]` is the head.
pub struct Snake {
    pub current_dir: (i8, i8),
    pub tiles: Vec<(i8, i8)>,
    pub fruit_pos: (i8, i8),
}

/// The games pane: the game list with its selection, the game being played,
/// and the Wordle game once one has been started.
pub struct Games {
    pub wordle: Option<Wordle>,
    pub focused_game: Game,
    pub active_game: Option<Game>,
}

/// Everything one connected client sees and controls.
pub struct ClientState {
    pub sidebar: Sidebar,
    pub counter: Counter,
    pub games: Games,
    pub current_pane: MainPane,
    pub focus: Focus,
    pub exiting: bool,
}

/// A message broadcast to every client when the shared counter goes up.
#[derive(Debug, Clone, Copy, PartialEq, Eq, Structural)]
pub enum ServerMessage {
    Increment,
}

/// A change that one client made to the shared counter, broadcast to all.
#[derive(Debug, Clone, Copy, PartialEq, Eq, Structural)]
pub enum ServerEvent {
    Increment,
    Decrement,
}

/// Bytes received from a terminal that do not yet form a complete event.
pub struct InputParser {
    pub pending_bytes: Vec<u8>,
}

impl Default for MainPane {
    /// The counter pane.
    fn default() -> (r: Self)
        ensures
            r == MainPane::Counter,
    {
        MainPane::Counter
    }
}

impl Default for Focus {
    /// The pane has the focus.
    fn default() -> (r: Self)
        ensures
            r == Focus::Pane,
    {
        Focus::Pane
    }
}

impl Default for SidebarItem {
    /// The first entry.
    fn default() -> (r: Self)
        ensures
            r == SidebarItem::Counter,
    {
        SidebarItem::Counter
    }
}

impl Default for Game {
    /// The first game.
    fn default() -> (r: Self)
        ensures
            r == Game::Wordle,
    {
        Game::Wordle
    }
}

impl Default for Sidebar {
    /// The first entry selected.
    fn default() -> (r: Self)
        ensures
            r.item == SidebarItem::Counter,
    {
        Sidebar { item: SidebarItem::Counter }
    }
}

impl Default for Counter {
    /// A counter showing zero.
    fn default() -> (r: Self)
        ensures
            r.count == 0,
            r.last_increment_time is None,
    {
        Counter::new()
    }
}

impl Default for Games {
    /// The game list, with the first game selected and none started.
    fn default() -> (r: Self)
        ensures
            r.wordle is None,
            r.focused_game == Game::Wordle,
            r.active_game is None,
    {
        Games::new()
    }
}

impl Default for ClientState {
    /// A client as it connects.
    fn default() -> (r: Self)
        ensures
            r.sidebar.item == SidebarItem::Counter,
            r.counter.count == 0,
            r.counter.last_increment_time is None,
            r.games.wordle is None,
            r.games.focused_game == Game::Wordle,
            r.games.active_game is None,
            r.current_pane == MainPane::Counter,
            r.focus == Focus::Pane,
            !r.exiting,
    {
        ClientState::new()
    }
}

impl Default for InputParser {
    /// A parser with nothing waiting.
    fn default() -> (r: Self)
        ensures
            r.pending_bytes@ == Seq::<u8>::empty(),
    {
        InputParser::new()
    }
}

} // verus!
