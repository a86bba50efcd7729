use vstd::prelude::*;

use crate::keys::KeyCode;
use crate::types::{Focus, MainPane, Sidebar, SidebarItem};

verus! {

/// The number of sidebar entries.
pub const SIDEBAR_ITEM_COUNT: usize = 2;

impl SidebarItem {
    /// The entry's position in the list.
    pub open spec fn index(self) -> int {
        match self {
            SidebarItem::Counter => 0,
            SidebarItem::Games => 1,
        }
    }

    /// The entry at position `i` of the list.
    pub open spec fn at(i: int) -> SidebarItem {
        if i == 0 {
            SidebarItem::Counter
        } else {
            SidebarItem::Games
        }
    }

    /// The entry below this one, wrapping from the last to the first.
    pub open spec fn next_item(self) -> SidebarItem {
        SidebarItem::at((self.index() + 1) % (SIDEBAR_ITEM_COUNT as int))
    }

    /// The entry above this one, wrapping from the first to the last.
    pub open spec fn prev_item(self) -> SidebarItem {
        SidebarItem::at((self.index() + SIDEBAR_ITEM_COUNT - 1) % (SIDEBAR_ITEM_COUNT as int))
    }

    /// The pane that the entry opens.
    pub open spec fn pane(self) -> MainPane {
        match self {
            SidebarItem::Counter => MainPane::Counter,
            SidebarItem::Games => MainPane::Games,
        }
    }

    /// The entry's label.
    pub open spec fn label(self) -> Seq<char> {
        match self {
            SidebarItem::Counter => "Counter"@,
            SidebarItem::Games => "Games"@,
        }
    }

    /// The entry's position in the list.
    pub fn position(&self) -> (r: usize)
        ensures
            r == self.index(),
            r < SIDEBAR_ITEM_COUNT,
    {
        match self {
            SidebarItem::Counter => 0,
            SidebarItem::Games => 1,
        }
    }

    /// The entry at position `i` of the list.
    pub fn variant_at(i: usize) -> (r: SidebarItem)
        requires
            i < SIDEBAR_ITEM_COUNT,
        ensures
            r == SidebarItem::at(i as int),
            r.index() == i,
    {
        if i == 0 {
            SidebarItem::Counter
        } else {
            SidebarItem::Games
        }
    }

    /// The entry's label, as the sidebar lists it.
    pub fn name(&self) -> (r: &'static str)
        ensures
            r@ == self.label(),
    {
        match self {
            SidebarItem::Counter => "Counter",
            SidebarItem::Games => "Games",
        }
    }

    /// The entry below this one, wrapping from the last to the first.
    pub fn following(&self) -> (r: SidebarItem)
        ensures
            r == self.next_item(),
    {
        SidebarItem::variant_at((self.position() + 1) % SIDEBAR_ITEM_COUNT)
    }

    /// The entry above this one, wrapping from the first to the last.
    pub fn preceding(&self) -> (r: SidebarItem)
        ensures
            r == self.prev_item(),
    {
        SidebarItem::variant_at((self.position() + SIDEBAR_ITEM_COUNT - 1) % SIDEBAR_ITEM_COUNT)
    }

    /// The entry's position in the list: every position below
    /// `SIDEBAR_ITEM_COUNT` holds exactly one entry.
    pub proof fn lemma_index_at(self)
        ensures
            0 <= self.index() < SIDEBAR_ITEM_COUNT,
            SidebarItem::at(self.index()) == self,
    {
    }
}

/// What one key press does to the sidebar, the open pane, the focus and
/// the redraw flag: up and down move the selection round the list, Enter
/// opens the selected pane and hands it the focus, and every other key does
/// nothing.
pub open spec fn sidebar_key_step(
    item: SidebarItem,
    pane: MainPane,
    focus: Focus,
    redraw: bool,
    key: KeyCode,
    new_item: SidebarItem,
    new_pane: MainPane,
    new_focus: Focus,
    new_redraw: bool,
) -> bool {
    if key.is_up_key() {
        new_item == item.prev_item() && new_pane == pane && new_focus == focus && new_redraw
    } else if key.is_down_key() {
        new_item == item.next_item() && new_pane == pane && new_focus == focus && new_redraw
    } else if key == KeyCode::Enter {
        new_item == item && new_pane == item.pane() && new_focus == Focus::Pane && new_redraw
    } else {
        new_item == item && new_pane == pane && new_focus == focus && new_redraw == redraw
    }
}

impl Sidebar {
    /// Applies one key press to the sidebar.
    pub fn handle_key(
        &mut self,
        key: KeyCode,
        current_pane: &mut MainPane,
        focus: &mut Focus,
        needs_redraw: &mut bool,
    )
        ensures
            sidebar_key_step(
                old(self).item,
                *old(current_pane),
                *old(focus),
                *old(needs_redraw),
                key,
                final(self).item,
                *final(current_pane),
                *final(focus),
                *final(needs_redraw),
            ),
    {
        if key.is_up() {
            self.item = self.item.preceding();
            *needs_redraw = true;
        } else if key.is_down() {
            self.item = self.item.following();
            *needs_redraw = true;
        } else if key == KeyCode::Enter {
            *current_pane = match self.item {
                SidebarItem::Counter => MainPane::Counter,
                SidebarItem::Games => MainPane::Games,
            };
            *needs_redraw = true;
            *focus = Focus::Pane;
        }
    }
}

/// Each entry opens the pane it is named after, so different entries open
/// different panes.
pub proof fn lemma_entries_open_their_panes(item: SidebarItem, other: SidebarItem)
    ensures
        (item.pane() == MainPane::Counter) == (item.label() == "Counter"@),
        (item.pane() == MainPane::Games) == (item.label() == "Games"@),
        item.pane() == other.pane() ==> item == other,
{
    reveal_strlit("Counter");
    reveal_strlit("Games");
    assert("Counter"@ != "Games"@) by {
        assert("Counter"@.len() != "Games"@.len());
    }
}

/// Moving down and then up returns to the same entry, and so does moving up
/// and then down.
pub proof fn lemma_sidebar_moves_undo(item: SidebarItem)
    ensures
        item.next_item().prev_item() == item,
        item.prev_item().next_item() == item,
{
}

/// Moving down once per entry returns to the starting entry, after visiting
/// every other entry on the way.
pub proof fn lemma_sidebar_moves_cycle(item: SidebarItem)
    ensures
        item.next_item() != item,
        item.next_item().next_item() == item,
{
}

} // verus!
