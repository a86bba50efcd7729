use tuiserve::games::GAME_COUNT;
use tuiserve::keys::KeyCode;
use tuiserve::sidebar::SIDEBAR_ITEM_COUNT;
use tuiserve::types::{Focus, Game, Games, MainPane, Sidebar, SidebarItem};

#[test]
fn sidebar_moves_wrap_round() {
    let mut sidebar = Sidebar::default();
    let mut pane = MainPane::Counter;
    let mut focus = Focus::Sidebar;
    let mut redraw = false;
    sidebar.handle_key(KeyCode::Down, &mut pane, &mut focus, &mut redraw);
    assert_eq!(sidebar.item, SidebarItem::Games);
    assert!(redraw);
    sidebar.handle_key(KeyCode::Char('j'), &mut pane, &mut focus, &mut redraw);
    assert_eq!(sidebar.item, SidebarItem::Counter);
    sidebar.handle_key(KeyCode::Char('k'), &mut pane, &mut focus, &mut redraw);
    assert_eq!(sidebar.item, SidebarItem::Games);
    sidebar.handle_key(KeyCode::Up, &mut pane, &mut focus, &mut redraw);
    assert_eq!(sidebar.item, SidebarItem::Counter);
    assert_eq!(pane, MainPane::Counter);
    assert_eq!(focus, Focus::Sidebar);
}

#[test]
fn sidebar_enter_opens_the_pane() {
    let mut sidebar = Sidebar { item: SidebarItem::Games };
    let mut pane = MainPane::Counter;
    let mut focus = Focus::Sidebar;
    let mut redraw = false;
    sidebar.handle_key(KeyCode::Enter, &mut pane, &mut focus, &mut redraw);
    assert_eq!(pane, MainPane::Games);
    assert_eq!(focus, Focus::Pane);
    assert!(redraw);
}

#[test]
fn sidebar_ignores_other_keys() {
    let mut sidebar = Sidebar::default();
    let mut pane = MainPane::Counter;
    let mut focus = Focus::Sidebar;
    let mut redraw = false;
    sidebar.handle_key(KeyCode::Char('x'), &mut pane, &mut focus, &mut redraw);
    assert_eq!(sidebar.item, SidebarItem::Counter);
    assert!(!redraw);
}

#[test]
fn sidebar_names() {
    assert_eq!(SidebarItem::Counter.name(), "Counter");
    assert_eq!(SidebarItem::Games.name(), "Games");
    assert_eq!(SIDEBAR_ITEM_COUNT, 2);
    assert_eq!(SidebarItem::variant_at(1), SidebarItem::Games);
    assert_eq!(SidebarItem::Games.position(), 1);
}

#[test]
fn game_list_wraps_round() {
    assert_eq!(Game::Wordle.following(), Game::Snake);
    assert_eq!(Game::Snake.following(), Game::Tetris);
    assert_eq!(Game::Tetris.following(), Game::Wordle);
    assert_eq!(Game::Wordle.preceding(), Game::Tetris);
    assert_eq!(Game::Tetris.preceding(), Game::Snake);
    assert_eq!(GAME_COUNT, 3);
}

#[test]
fn game_names_and_descriptions() {
    assert_eq!(Game::Wordle.name(), "Wordle");
    assert_eq!(Game::Snake.name(), "Snake");
    assert_eq!(Game::Tetris.name(), "Tetris");
    assert_eq!(Game::Wordle.description(), "Try to guess a word");
    assert_eq!(Game::Snake.description(), "Consume fruit to grow longer");
    assert_eq!(Game::Tetris.description(), "Place falling blocks in a stack");
}

#[test]
fn games_pane_moves_and_starts_wordle() {
    let mut games = Games::default();
    let mut redraw = false;
    games.handle_key(KeyCode::Up, &mut redraw);
    assert_eq!(games.focused_game, Game::Tetris);
    assert!(redraw);
    games.handle_key(KeyCode::Char('j'), &mut redraw);
    assert_eq!(games.focused_game, Game::Wordle);
    let mut redraw = false;
    games.handle_key(KeyCode::Char('x'), &mut redraw);
    assert!(!redraw);
    assert!(games.wordle.is_none());
    games.handle_key(KeyCode::Enter, &mut redraw);
    assert!(redraw);
    assert_eq!(games.active_game, Some(Game::Wordle));
    let answers = tuiserve::types::Wordle::answer_list();
    let word = games.wordle.as_ref().unwrap().correct_word.clone();
    assert!(answers.contains(&word.as_str()));
    games.handle_key(KeyCode::Char('q'), &mut redraw);
    assert_eq!(games.wordle.as_ref().unwrap().current_guess, "q");
    assert_eq!(games.focused_game, Game::Wordle);
}

#[test]
fn starting_wordle_again_keeps_the_game() {
    let mut games = Games::default();
    games.wordle = Some(tuiserve::types::Wordle::from_answer(0));
    let mut redraw = false;
    games.handle_key(KeyCode::Enter, &mut redraw);
    assert_eq!(games.wordle.as_ref().unwrap().correct_word, "apple");
    assert_eq!(games.active_game, Some(Game::Wordle));
}
