use tuiserve::client::handle_key_press;
use tuiserve::keys::KeyCode;
use tuiserve::session::{terminal_size, FrameFlags};
use tuiserve::snake::{SnakeCell, BOARD_SIZE};
use tuiserve::types::{ClientState, Focus, Game, MainPane, ServerEvent, ServerMessage, Snake};

#[test]
fn client_starts_on_the_counter() {
    let state = ClientState::default();
    assert_eq!(state.current_pane, MainPane::Counter);
    assert_eq!(state.focus, Focus::Pane);
    assert_eq!(state.counter.count, 0);
    assert!(!state.exiting);
}

#[test]
fn enter_on_the_counter_increments_the_shared_count() {
    let mut state = ClientState::default();
    let mut shared = 41u32;
    let mut redraw = false;
    let message = state.handle_key(KeyCode::Enter, &mut shared, &mut redraw);
    assert_eq!(message, Some(ServerMessage::Increment));
    assert_eq!(shared, 42);
    assert!(redraw);
    let message = state.handle_key(KeyCode::Char('x'), &mut shared, &mut redraw);
    assert_eq!(message, None);
    assert_eq!(shared, 42);
}

#[test]
fn apply_command_counts_up() {
    let mut state = ClientState::default();
    state.apply_command(&ServerMessage::Increment);
    state.apply_command(&ServerMessage::Increment);
    assert_eq!(state.counter.count, 2);
}

#[test]
fn sidebar_focus_then_games() {
    let mut state = ClientState::default();
    let mut redraw = false;
    state.set_focus(Focus::Sidebar, &mut redraw);
    assert!(redraw);
    let mut shared = 0u32;
    state.handle_key(KeyCode::Down, &mut shared, &mut redraw);
    state.handle_key(KeyCode::Enter, &mut shared, &mut redraw);
    assert_eq!(state.current_pane, MainPane::Games);
    assert_eq!(state.focus, Focus::Pane);
    state.handle_key(KeyCode::Enter, &mut shared, &mut redraw);
    assert_eq!(state.games.active_game, Some(Game::Wordle));
    assert!(state.games.wordle.is_some());
    assert_eq!(shared, 0);
}

#[test]
fn key_presses_move_the_shared_count() {
    let mut state = ClientState::default();
    let mut shared = 0u32;
    let mut redraw = false;
    assert_eq!(handle_key_press(&mut state, &mut shared, &mut redraw, KeyCode::Left), Some(ServerEvent::Decrement));
    assert_eq!(shared, 0);
    assert!(redraw);
    assert_eq!(handle_key_press(&mut state, &mut shared, &mut redraw, KeyCode::Right), Some(ServerEvent::Increment));
    assert_eq!(handle_key_press(&mut state, &mut shared, &mut redraw, KeyCode::Right), Some(ServerEvent::Increment));
    assert_eq!(handle_key_press(&mut state, &mut shared, &mut redraw, KeyCode::Left), Some(ServerEvent::Decrement));
    assert_eq!(shared, 1);
    let mut redraw = false;
    assert_eq!(handle_key_press(&mut state, &mut shared, &mut redraw, KeyCode::Char('x')), None);
    assert!(!redraw);
    assert!(!state.exiting);
    assert_eq!(handle_key_press(&mut state, &mut shared, &mut redraw, KeyCode::Char('q')), None);
    assert!(state.exiting);
    assert_eq!(shared, 1);
}

#[test]
fn frame_flags_track_redraws() {
    let mut flags = FrameFlags::new();
    assert_eq!(flags.take_frame(), Some(true));
    assert_eq!(flags.take_frame(), None);
    flags.on_broadcast();
    assert_eq!(flags.take_frame(), Some(false));
    flags.on_resize();
    assert_eq!(flags.take_frame(), Some(true));
    assert_eq!(flags.take_frame(), None);
}

#[test]
fn terminal_size_keeps_low_bits() {
    assert_eq!(terminal_size(80, 24), (80, 24));
    assert_eq!(terminal_size(65536 + 5, 70000), (5, 4464));
}

#[test]
fn snake_starts_in_the_middle_row() {
    let snake = Snake::make_game();
    assert_eq!(snake.current_dir, (1, 0));
    assert_eq!(snake.tiles, vec![(3, 6), (2, 6), (1, 6)]);
    assert_eq!(snake.fruit_pos, (8, 6));
    assert_eq!(snake.cell((3, 6)), SnakeCell::Head);
    assert_eq!(snake.cell((2, 6)), SnakeCell::Body);
    assert_eq!(snake.cell((8, 6)), SnakeCell::Fruit);
    assert_eq!(snake.cell((0, 0)), SnakeCell::Empty);
    let board = snake.board();
    assert_eq!(board.len(), BOARD_SIZE as usize);
    assert_eq!(board[6][1], SnakeCell::Body);
    assert_eq!(board[6][3], SnakeCell::Head);
    assert_eq!(board[6][8], SnakeCell::Fruit);
}

#[test]
fn snake_turns_up_on_w() {
    let mut snake = Snake::make_game();
    snake.handle_key(KeyCode::Char('s'));
    assert_eq!(snake.current_dir, (1, 0));
    snake.handle_key(KeyCode::Char('w'));
    assert_eq!(snake.current_dir, (0, -1));
}
