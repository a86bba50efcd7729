use vstd::prelude::*;

use crate::counter::counter_key_step;
use crate::games::games_key_step;
use crate::keys::KeyCode;
use crate::sidebar::sidebar_key_step;
use crate::types::{
    ClientState, Counter, Focus, Games, MainPane, ServerEvent, ServerMessage, Sidebar,
    SidebarItem,
};

verus! {

impl ClientState {
    /// A client as it connects: the counter pane open and focused, the
    /// sidebar on its first entry, no game started.
    pub fn new() -> (r: Self)
        ensures
            r.sidebar.item == SidebarItem::Counter,
            r.counter.count == 0,
            r.counter.last_increment_time is None,
            r.games.wordle is None,
            r.games.focused_game == crate::types::Game::Wordle,
            r.games.active_game is None,
            r.current_pane == MainPane::Counter,
            r.focus == Focus::Pane,
            !r.exiting,
    {
        ClientState {
            sidebar: Sidebar { item: SidebarItem::Counter },
            counter: Counter::new(),
            games: Games::new(),
            current_pane: MainPane::Counter,
            focus: Focus::Pane,
            exiting: false,
        }
    }

    /// Whether a key press can be handled: the games pane must be able to
    /// take it when it has the focus, and the shared count must have room to
    /// grow when Enter reaches the counter pane.
    pub open spec fn can_handle(&self, key: KeyCode, shared_count: u32) -> bool {
        &&& (self.focus == Focus::Pane && self.current_pane == MainPane::Games)
            ==> self.games.can_handle(key)
        &&& (self.focus == Focus::Pane && self.current_pane == MainPane::Counter && key
            == KeyCode::Enter) ==> shared_count < u32::MAX
    }

    /// Applies a message broadcast by the server: the count shown goes up
    /// by one.
    pub fn apply_command(&mut self, command: &ServerMessage)
        requires
            old(self).counter.count < u32::MAX,
        ensures
            final(self).counter.count == old(self).counter.count + 1,
            final(self).counter.last_increment_time == old(self).counter.last_increment_time,
            final(self).sidebar == old(self).sidebar,
            final(self).games == old(self).games,
            final(self).current_pane == old(self).current_pane,
            final(self).focus == old(self).focus,
            final(self).exiting == old(self).exiting,
    {
        match command {
            ServerMessage::Increment => self.counter.count = self.counter.count + 1,
        }
    }

    /// Moves the focus, and asks for a redraw.
    pub fn set_focus(&mut self, focus: Focus, needs_redraw: &mut bool)
        ensures
            final(self).focus == focus,
            *final(needs_redraw),
            final(self).sidebar == old(self).sidebar,
            final(self).counter == old(self).counter,
            final(self).games == old(self).games,
            final(self).current_pane == old(self).current_pane,
            final(self).exiting == old(self).exiting,
    {
        self.focus = focus;
        *needs_redraw = true;
    }

    /// Hands one key press to the part of the screen that has the focus: the
    /// sidebar, or the open pane. Returns the message to broadcast to every
    /// client, if any.
    pub fn handle_key(
        &mut self,
        key: KeyCode,
        shared_count: &mut u32,
        needs_redraw: &mut bool,
    ) -> (r: Option<ServerMessage>)
        requires
            old(self).can_handle(key, *old(shared_count)),
        ensures
            final(self).exiting == old(self).exiting,
            final(self).counter == old(self).counter,
            old(self).focus == Focus::Sidebar ==> {
                &&& sidebar_key_step(
                    old(self).sidebar.item,
                    old(self).current_pane,
                    old(self).focus,
                    *old(needs_redraw),
                    key,
                    final(self).sidebar.item,
                    final(self).current_pane,
                    final(self).focus,
                    *final(needs_redraw),
                )
                &&& final(self).games == old(self).games
                &&& *final(shared_count) == *old(shared_count)
                &&& r is None
            },
            old(self).focus == Focus::Pane && old(self).current_pane == MainPane::Counter ==> {
                &&& counter_key_step(
                    *old(shared_count),
                    *old(needs_redraw),
                    key,
                    *final(shared_count),
                    *final(needs_redraw),
                    r,
                )
                &&& final(self).sidebar == old(self).sidebar
                &&& final(self).games == old(self).games
                &&& final(self).current_pane == old(self).current_pane
                &&& final(self).focus == old(self).focus
            },
            old(self).focus == Focus::Pane && old(self).current_pane == MainPane::Games ==> {
                &&& games_key_step(
                    old(self).games,
                    *old(needs_redraw),
                    key,
                    final(self).games,
                    *final(needs_redraw),
                )
                &&& final(self).sidebar == old(self).sidebar
                &&& final(self).current_pane == old(self).current_pane
                &&& final(self).focus == old(self).focus
                &&& *final(shared_count) == *old(shared_count)
                &&& r is None
            },
            old(self).games.wordle_wf() ==> final(self).games.wordle_wf(),
    {
        match self.focus {
            Focus::Sidebar => {
                self.sidebar.handle_key(key, &mut self.current_pane, &mut self.focus, needs_redraw);
                None
            },
            Focus::Pane => match self.current_pane {
                MainPane::Counter => self.counter.handle_key(key, shared_count, needs_redraw),
                MainPane::Games => {
                    self.games.handle_key(key, needs_redraw);
                    None
                },
            },
        }
    }
}

/// The shared count after a key press: the left arrow takes one away unless
/// the count is zero, the right arrow adds one, and every other key leaves it.
pub open spec fn shared_count_after(count: u32, key: KeyCode) -> int {
    if key == KeyCode::Left {
        if count > 0 {
            count - 1
        } else {
            count as int
        }
    } else if key == KeyCode::Right {
        count + 1
    } else {
        count as int
    }
}

/// The change to the shared count that a key press announces.
pub open spec fn event_for_key(key: KeyCode) -> Option<ServerEvent> {
    if key == KeyCode::Left {
        Some(ServerEvent::Decrement)
    } else if key == KeyCode::Right {
        Some(ServerEvent::Increment)
    } else {
        None
    }
}

/// Applies a key press to the shared count and to the client's exit flag:
/// `q` asks to leave, the left arrow takes one from the count unless it is
/// zero, and the right arrow adds one. Returns the change to broadcast to
/// every client, if any.
pub fn handle_key_press(
    app: &mut ClientState,
    shared_count: &mut u32,
    needs_redraw: &mut bool,
    key: KeyCode,
) -> (r: Option<ServerEvent>)
    requires
        key == KeyCode::Right ==> *old(shared_count) < u32::MAX,
    ensures
        final(app).exiting == (old(app).exiting || key == KeyCode::Char('q')),
        final(app).sidebar == old(app).sidebar,
        final(app).counter == old(app).counter,
        final(app).games == old(app).games,
        final(app).current_pane == old(app).current_pane,
        final(app).focus == old(app).focus,
        *final(shared_count) == shared_count_after(*old(shared_count), key),
        r == event_for_key(key),
        *final(needs_redraw) == (*old(needs_redraw) || key == KeyCode::Left || key == KeyCode::Right),
{
    match key {
        KeyCode::Char('q') => {
            app.exiting = true;
            None
        },
        KeyCode::Left => {
            if *shared_count > 0 {
                *shared_count = *shared_count - 1;
            }
            *needs_redraw = true;
            Some(ServerEvent::Decrement)
        },
        KeyCode::Right => {
            *shared_count = *shared_count + 1;
            *needs_redraw = true;
            Some(ServerEvent::Increment)
        },
        _ => None,
    }
}

/// Every key other than the left and right arrows leaves the shared count as
/// it is and announces nothing.
pub proof fn lemma_other_keys_leave_the_count(count: u32, key: KeyCode)
    requires
        key != KeyCode::Left,
        key != KeyCode::Right,
    ensures
        shared_count_after(count, key) == count,
        event_for_key(key) is None,
{
}

/// The right arrow adds one to the shared count and announces an increment;
/// the left arrow announces a decrement.
pub proof fn lemma_arrows_move_the_count(count: u32)
    ensures
        shared_count_after(count, KeyCode::Right) == count + 1,
        event_for_key(KeyCode::Right) == Some(ServerEvent::Increment),
        shared_count_after(count, KeyCode::Left) <= count,
        event_for_key(KeyCode::Left) == Some(ServerEvent::Decrement),
{
}

/// Pressing right and then left leaves the shared count where it was.
pub proof fn lemma_right_then_left(count: u32)
    requires
        count < u32::MAX,
    ensures
        shared_count_after((shared_count_after(count, KeyCode::Right)) as u32, KeyCode::Left)
            == count,
{
}

/// Pressing left never takes the shared count below zero, and takes exactly
/// one away from a positive count.
pub proof fn lemma_left_floors_at_zero(count: u32)
    ensures
        shared_count_after(count, KeyCode::Left) >= 0,
        count > 0 ==> shared_count_after(count, KeyCode::Left) == count - 1,
        count == 0 ==> shared_count_after(count, KeyCode::Left) == 0,
{
}

} // verus!
