use vstd::prelude::*;

use crate::keys::KeyCode;
use crate::mouse::{may_overflow, mouse_report_may_overflow, ESCAPE};
use crate::types::InputParser;
use crossterm::event::KeyCode as TermKey;
use terminput::Event;
use terminput_crossterm::to_crossterm_key;

verus! {

/// Once this many bytes are waiting without forming an event, the oldest
/// byte is dropped whenever a poll finds no event.
pub const MAX_PENDING_BYTES: usize = 1024;

/// The byte that the Enter key sends.
pub const CARRIAGE_RETURN: u8 = 0x0d;

/// The byte that the Backspace key sends.
pub const DELETE_BYTE: u8 = 0x7f;

/// The byte after the escape byte that opens a control sequence.
pub const LEFT_BRACKET: u8 = 0x5b;

/// The byte that closes a numbered special-key sequence.
pub const TILDE: u8 = 0x7e;

/// A lowercase ASCII letter.
pub open spec fn is_lower_byte(b: u8) -> bool {
    0x61 <= b <= 0x7a
}

/// Every byte of `bytes` is a lowercase ASCII letter.
pub open spec fn all_lower_bytes(bytes: Seq<u8>) -> bool {
    forall|i: int| 0 <= i < bytes.len() ==> is_lower_byte(#[trigger] bytes[i])
}

/// The character keys for the letters `bytes`, in order.
pub open spec fn letter_keys(bytes: Seq<u8>) -> Seq<KeyCode> {
    bytes.map_values(|b: u8| KeyCode::Char(b as char))
}

/// `bytes` starts with the control sequence `ESC [ x`.
pub open spec fn starts_with_csi(bytes: Seq<u8>, x: u8) -> bool {
    bytes.len() >= 3 && bytes[0] == ESCAPE && bytes[1] == LEFT_BRACKET && bytes[2] == x
}

/// The keys that `bytes` spell when they are made only of lowercase letters,
/// `\r` (Enter), `0x7f` (Backspace), the arrow sequences `ESC [ A`..`ESC [ D`
/// (up, down, right, left) and `ESC [ 3 ~` (Delete); `None` for any other
/// bytes.
pub open spec fn plain_keys(bytes: Seq<u8>) -> Option<Seq<KeyCode>>
    decreases bytes.len(),
{
    if bytes.len() == 0 {
        Some(Seq::empty())
    } else if is_lower_byte(bytes[0]) {
        match plain_keys(bytes.skip(1)) {
            Some(rest) => Some(seq![KeyCode::Char(bytes[0] as char)] + rest),
            None => None,
        }
    } else if bytes[0] == CARRIAGE_RETURN {
        match plain_keys(bytes.skip(1)) {
            Some(rest) => Some(seq![KeyCode::Enter] + rest),
            None => None,
        }
    } else if bytes[0] == DELETE_BYTE {
        match plain_keys(bytes.skip(1)) {
            Some(rest) => Some(seq![KeyCode::Backspace] + rest),
            None => None,
        }
    } else if starts_with_csi(bytes, 0x41) || starts_with_csi(bytes, 0x42) || starts_with_csi(
        bytes,
        0x43,
    ) || starts_with_csi(bytes, 0x44) {
        let key = if bytes[2] == 0x41 {
            KeyCode::Up
        } else if bytes[2] == 0x42 {
            KeyCode::Down
        } else if bytes[2] == 0x43 {
            KeyCode::Right
        } else {
            KeyCode::Left
        };
        match plain_keys(bytes.skip(3)) {
            Some(rest) => Some(seq![key] + rest),
            None => None,
        }
    } else if bytes.len() >= 4 && starts_with_csi(bytes, 0x33) && bytes[3] == TILDE {
        match plain_keys(bytes.skip(4)) {
            Some(rest) => Some(seq![KeyCode::Delete] + rest),
            None => None,
        }
    } else {
        None
    }
}

/// What the terminal parser makes of `bytes`: `None` unless they form one
/// complete event; for a complete event, the key it reports, or `None` when
/// it is not a key event.
pub uninterp spec fn parsed_key(bytes: Seq<u8>) -> Option<Option<KeyCode>>;

/// Decodes one event from the start of `bytes` with
/// `terminput::Event::parse_from`, and, for a key event, takes the key code
/// that `terminput_crossterm::to_crossterm_key` gives it, in the library's
/// terms (keys the library does not handle are `Other`). The result is `None`
/// when the parser reports the bytes incomplete or invalid, `Some(None)` for
/// a complete event that is not a key, and `Some(Some(key))` for a key.
/// Its source decodes a lone lowercase letter as that character, `\r` as
/// Enter, `0x7f` as Backspace, `ESC [ A`..`ESC [ D` as the up, down, right and
/// left arrows, `ESC [ 3 ~` as Delete (none with modifiers), and reads
/// `ESC [` and `ESC [ 3` as incomplete.
/// The parser subtracts one from the column and row of a mouse report that
/// counts them from one, which fails on a zero; the reports on which it gets
/// that far with a zero (`may_overflow`) are left out.
#[verifier::external_body]
fn parse_key(bytes: &[u8]) -> (r: Option<Option<KeyCode>>)
    requires
        !may_overflow(bytes@),
    ensures
        r == parsed_key(bytes@),
        bytes@.len() == 1 && is_lower_byte(bytes@[0]) ==> r == Some(
            Some(KeyCode::Char(bytes@[0] as char)),
        ),
        bytes@.len() == 1 && bytes@[0] == CARRIAGE_RETURN ==> r == Some(Some(KeyCode::Enter)),
        bytes@.len() == 1 && bytes@[0] == DELETE_BYTE ==> r == Some(Some(KeyCode::Backspace)),
        bytes@.len() == 2 && bytes@[0] == ESCAPE && bytes@[1] == LEFT_BRACKET ==> r is None,
        bytes@.len() == 3 && starts_with_csi(bytes@, 0x41) ==> r == Some(Some(KeyCode::Up)),
        bytes@.len() == 3 && starts_with_csi(bytes@, 0x42) ==> r == Some(Some(KeyCode::Down)),
        bytes@.len() == 3 && starts_with_csi(bytes@, 0x43) ==> r == Some(Some(KeyCode::Right)),
        bytes@.len() == 3 && starts_with_csi(bytes@, 0x44) ==> r == Some(Some(KeyCode::Left)),
        bytes@.len() == 3 && starts_with_csi(bytes@, 0x33) ==> r is None,
        bytes@.len() == 4 && starts_with_csi(bytes@, 0x33) && bytes@[3] == TILDE ==> r == Some(
            Some(KeyCode::Delete),
        ),
{
    match Event::parse_from(bytes) {
        Ok(Some(Event::Key(key_event))) => Some(Some(match to_crossterm_key(key_event).code {
            TermKey::Backspace => KeyCode::Backspace,
            TermKey::Enter => KeyCode::Enter,
            TermKey::Left => KeyCode::Left,
            TermKey::Right => KeyCode::Right,
            TermKey::Up => KeyCode::Up,
            TermKey::Down => KeyCode::Down,
            TermKey::Delete => KeyCode::Delete,
            TermKey::Char(c) => KeyCode::Char(c),
            _ => KeyCode::Other,
        })),
        Ok(Some(_)) => Some(None),
        _ => None,
    }
}

/// Input that the parser fails on: a mouse report that it reads up to a zero
/// column or row, which it then turns into a zero-based position by
/// subtracting one (see `may_overflow`).
#[derive(Debug, Clone, Copy, PartialEq, Eq, Structural)]
pub struct RefusedInput;

/// A poll stops at a prefix that is a complete event, or one that the parser
/// cannot be given.
pub open spec fn stops_at(prefix: Seq<u8>) -> bool {
    may_overflow(prefix) || parsed_key(prefix) is Some
}

/// The length of the prefix of `bytes` at which a poll stops, trying lengths
/// from `len` upwards. A lone escape byte is not tried on its own while more
/// bytes follow it, so that escape sequences are read whole.
pub open spec fn event_len_from(bytes: Seq<u8>, len: nat) -> Option<nat>
    decreases bytes.len() + 1 - len,
{
    if len > bytes.len() {
        None
    } else if len == 1 && bytes[0] == ESCAPE && bytes.len() > 1 {
        event_len_from(bytes, 2)
    } else if stops_at(bytes.take(len as int)) {
        Some(len)
    } else {
        event_len_from(bytes, len + 1)
    }
}

/// The length of the prefix at which a poll of `bytes` stops, if any.
pub open spec fn first_event_len(bytes: Seq<u8>) -> Option<nat> {
    event_len_from(bytes, 1)
}

/// A poll of `bytes` meets input it refuses.
pub open spec fn poll_refuses(bytes: Seq<u8>) -> bool {
    first_event_len(bytes) matches Some(len) && may_overflow(bytes.take(len as int))
}

/// What a poll of `bytes` decodes: the event found, as `parsed_key` gives it,
/// or `None` when no prefix forms a complete event.
pub open spec fn poll_result(bytes: Seq<u8>) -> Option<Option<KeyCode>> {
    match first_event_len(bytes) {
        Some(len) => parsed_key(bytes.take(len as int)),
        None => None,
    }
}

/// The bytes left waiting after one poll: the decoded event's bytes are
/// removed; refused input is left in place; when no event is found and the
/// buffer is full, its oldest byte is dropped.
pub open spec fn after_poll(bytes: Seq<u8>) -> Seq<u8> {
    match first_event_len(bytes) {
        Some(len) => if may_overflow(bytes.take(len as int)) {
            bytes
        } else {
            bytes.skip(len as int)
        },
        None => if bytes.len() >= MAX_PENDING_BYTES {
            bytes.skip(1)
        } else {
            bytes
        },
    }
}

/// The bytes left waiting after polling until no event is found, or until
/// refused input is met.
pub open spec fn settle(bytes: Seq<u8>) -> Seq<u8>
    decreases bytes.len(),
{
    match first_event_len(bytes) {
        Some(len) => if 1 <= len <= bytes.len() && !may_overflow(bytes.take(len as int)) {
            settle(bytes.skip(len as int))
        } else {
            bytes
        },
        None => after_poll(bytes),
    }
}

/// Polling `bytes` until no event is found meets refused input.
pub open spec fn settle_refuses(bytes: Seq<u8>) -> bool
    decreases bytes.len(),
{
    match first_event_len(bytes) {
        Some(len) => if may_overflow(bytes.take(len as int)) {
            true
        } else if 1 <= len <= bytes.len() {
            settle_refuses(bytes.skip(len as int))
        } else {
            false
        },
        None => false,
    }
}

/// The keys decoded, in order, when polling `bytes` until no event is found;
/// events that are not keys are skipped.
pub open spec fn decoded_keys(bytes: Seq<u8>) -> Seq<KeyCode>
    decreases bytes.len(),
{
    match first_event_len(bytes) {
        Some(len) => if 1 <= len <= bytes.len() && !may_overflow(bytes.take(len as int)) {
            let rest = decoded_keys(bytes.skip(len as int));
            match parsed_key(bytes.take(len as int)) {
                Some(Some(key)) => seq![key] + rest,
                _ => rest,
            }
        } else {
            Seq::empty()
        },
        None => Seq::empty(),
    }
}

/// A poll stops at a non-empty prefix of the bytes, no shorter than the
/// first length tried.
pub proof fn lemma_event_len_bounds(bytes: Seq<u8>, len: nat)
    requires
        len >= 1,
    ensures
        event_len_from(bytes, len) matches Some(l) ==> len <= l <= bytes.len() && stops_at(
            bytes.take(l as int),
        ),
    decreases bytes.len() + 1 - len,
{
    if len > bytes.len() {
    } else if len == 1 && bytes[0] == ESCAPE && bytes.len() > 1 {
        lemma_event_len_bounds(bytes, 2);
    } else if stops_at(bytes.take(len as int)) {
    } else {
        lemma_event_len_bounds(bytes, len + 1);
    }
}

impl InputParser {
    /// An input parser with nothing waiting.
    pub fn new() -> (r: Self)
        ensures
            r.pending_bytes@ == Seq::<u8>::empty(),
    {
        InputParser { pending_bytes: Vec::new() }
    }

    /// Decodes the first complete event among the waiting bytes and removes
    /// its bytes, returning its key, if it is a key event. Prefixes are tried
    /// from the shortest. When none forms an event, the oldest byte is dropped
    /// if the buffer has reached `MAX_PENDING_BYTES`. Refused input stops the
    /// poll and stays waiting.
    pub fn next_complete_event(&mut self) -> (r: Result<Option<Option<KeyCode>>, RefusedInput>)
        ensures
            r is Err == poll_refuses(old(self).pending_bytes@),
            r matches Ok(event) ==> event == poll_result(old(self).pending_bytes@),
            final(self).pending_bytes@ == after_poll(old(self).pending_bytes@),
            ({
                let p = old(self).pending_bytes@;
                p.len() >= 1 && is_lower_byte(p[0]) ==> r == Ok::<_, RefusedInput>(
                    Some(Some(KeyCode::Char(p[0] as char))),
                ) && final(self).pending_bytes@ == p.skip(1)
            }),
            ({
                let p = old(self).pending_bytes@;
                p.len() >= 1 && p[0] == CARRIAGE_RETURN ==> r == Ok::<_, RefusedInput>(
                    Some(Some(KeyCode::Enter)),
                ) && final(self).pending_bytes@ == p.skip(1)
            }),
            ({
                let p = old(self).pending_bytes@;
                p.len() >= 1 && p[0] == DELETE_BYTE ==> r == Ok::<_, RefusedInput>(
                    Some(Some(KeyCode::Backspace)),
                ) && final(self).pending_bytes@ == p.skip(1)
            }),
            ({
                let p = old(self).pending_bytes@;
                starts_with_csi(p, 0x41) ==> r == Ok::<_, RefusedInput>(Some(Some(KeyCode::Up)))
                    && final(self).pending_bytes@ == p.skip(3)
            }),
            ({
                let p = old(self).pending_bytes@;
                starts_with_csi(p, 0x42) ==> r == Ok::<_, RefusedInput>(Some(Some(KeyCode::Down)))
                    && final(self).pending_bytes@ == p.skip(3)
            }),
            ({
                let p = old(self).pending_bytes@;
                starts_with_csi(p, 0x43) ==> r == Ok::<_, RefusedInput>(
                    Some(Some(KeyCode::Right)),
                ) && final(self).pending_bytes@ == p.skip(3)
            }),
            ({
                let p = old(self).pending_bytes@;
                starts_with_csi(p, 0x44) ==> r == Ok::<_, RefusedInput>(Some(Some(KeyCode::Left)))
                    && final(self).pending_bytes@ == p.skip(3)
            }),
            ({
                let p = old(self).pending_bytes@;
                p.len() >= 4 && starts_with_csi(p, 0x33) && p[3] == TILDE ==> r == Ok::<
                    _,
                    RefusedInput,
                >(Some(Some(KeyCode::Delete))) && final(self).pending_bytes@ == p.skip(4)
            }),
    {
        let ghost bytes = self.pending_bytes@;
        // `tried` is one less than the length of the next prefix to try.
        let mut tried: usize = 0;
        while tried < self.pending_bytes.len()
            invariant
                tried <= bytes.len(),
                self.pending_bytes@ == bytes,
                bytes == old(self).pending_bytes@,
                event_len_from(bytes, (tried + 1) as nat) == first_event_len(bytes),
                bytes.len() >= 1 && (is_lower_byte(bytes[0]) || bytes[0] == CARRIAGE_RETURN
                    || bytes[0] == DELETE_BYTE) ==> tried == 0,
                starts_with_csi(bytes, 0x41) || starts_with_csi(bytes, 0x42) || starts_with_csi(
                    bytes,
                    0x43,
                ) || starts_with_csi(bytes, 0x44) ==> tried <= 2,
                bytes.len() >= 4 && starts_with_csi(bytes, 0x33) && bytes[3] == TILDE ==> tried
                    <= 3,
            decreases bytes.len() - tried,
        {
            let sequence_length = tried + 1;
            if sequence_length == 1 && self.pending_bytes[0] == ESCAPE && self.pending_bytes.len()
                > 1 {
                tried = sequence_length;
                continue ;
            }
            let (prefix, _) = self.pending_bytes.as_slice().split_at(sequence_length);
            assert(prefix@ == bytes.take(sequence_length as int));
            if mouse_report_may_overflow(prefix) {
                return Err(RefusedInput);
            }
            match parse_key(prefix) {
                Some(event) => {
                    let rest = self.pending_bytes.split_off(sequence_length);
                    self.pending_bytes = rest;
                    assert(self.pending_bytes@ == bytes.skip(sequence_length as int));
                    return Ok(Some(event));
                },
                None => {
                    tried = sequence_length;
                },
            }
        }
        if self.pending_bytes.len() >= MAX_PENDING_BYTES {
            let rest = self.pending_bytes.split_off(1);
            self.pending_bytes = rest;
            assert(self.pending_bytes@ == bytes.skip(1));
        }
        Ok(None)
    }

    /// Adds `incoming_bytes` to the waiting bytes and decodes every complete
    /// event among them, returning the keys in order. What is left waiting is
    /// exactly what polling until no event is found leaves. When polling
    /// meets refused input, the result is an error and that input, with
    /// everything after it, stays waiting.
    pub fn feed(&mut self, incoming_bytes: &[u8]) -> (r: Result<Vec<KeyCode>, RefusedInput>)
        ensures
            final(self).pending_bytes@ == settle(old(self).pending_bytes@ + incoming_bytes@),
            r is Err == settle_refuses(old(self).pending_bytes@ + incoming_bytes@),
            r matches Ok(keys) ==> keys@ == decoded_keys(
                old(self).pending_bytes@ + incoming_bytes@,
            ),
            all_lower_bytes(old(self).pending_bytes@ + incoming_bytes@) ==> {
                &&& r matches Ok(keys) && keys@ == letter_keys(
                    old(self).pending_bytes@ + incoming_bytes@,
                )
                &&& final(self).pending_bytes@.len() == 0
            },
            plain_keys(old(self).pending_bytes@ + incoming_bytes@) matches Some(spelled) ==> {
                &&& r matches Ok(keys) && keys@ == spelled
                &&& final(self).pending_bytes@.len() == 0
            },
    {
        self.pending_bytes.extend_from_slice(incoming_bytes);
        assert(self.pending_bytes@ == old(self).pending_bytes@ + incoming_bytes@);
        let ghost all = self.pending_bytes@;
        let mut key_events: Vec<KeyCode> = Vec::new();
        let ghost mut consumed: int = 0;
        loop
            invariant_except_break
                all == old(self).pending_bytes@ + incoming_bytes@,
                0 <= consumed <= all.len(),
                all_lower_bytes(all) ==> self.pending_bytes@ == all.skip(consumed)
                    && key_events@ == letter_keys(all.take(consumed)),
                plain_keys(all) is Some ==> plain_keys(self.pending_bytes@) is Some && key_events@
                    + plain_keys(self.pending_bytes@)->0 == plain_keys(all)->0,
                settle(self.pending_bytes@) == settle(all),
                settle_refuses(self.pending_bytes@) == settle_refuses(all),
                key_events@ + decoded_keys(self.pending_bytes@) == decoded_keys(all),
            ensures
                self.pending_bytes@ == settle(all),
                !settle_refuses(all),
                key_events@ == decoded_keys(all),
                all_lower_bytes(all) ==> self.pending_bytes@.len() == 0 && key_events@
                    == letter_keys(all),
                plain_keys(all) is Some ==> self.pending_bytes@.len() == 0 && key_events@
                    == plain_keys(all)->0,
            decreases self.pending_bytes@.len(),
        {
            let ghost before = self.pending_bytes@;
            proof {
                lemma_event_len_bounds(before, 1);
            }
            match self.next_complete_event() {
                Ok(Some(event)) => {
                    if let Some(key) = event {
                        key_events.push(key);
                    }
                    proof {
                        if all_lower_bytes(all) {
                            assert(all.take(consumed + 1) =~= all.take(consumed).push(all[consumed]));
                            assert(all.skip(consumed).skip(1) =~= all.skip(consumed + 1));
                            consumed = consumed + 1;
                        }
                        if plain_keys(all) is Some {
                            let rest = plain_keys(self.pending_bytes@)->0;
                            assert(key_events@ + rest =~= plain_keys(all)->0);
                        }
                    }
                },
                Ok(None) => {
                    proof {
                        if all_lower_bytes(all) {
                            assert(all.take(consumed) =~= all);
                        }
                        if plain_keys(all) is Some {
                            assert(before.len() == 0);
                            assert(key_events@ =~= plain_keys(all)->0);
                        }
                    }
                    break;
                },
                Err(refused) => {
                    return Err(refused);
                },
            }
        }
        Ok(key_events)
    }
}

/// Polling only ever removes bytes from the front: what is left waiting is
/// always a suffix of what was there, so bytes are neither invented nor
/// reordered.
pub proof fn lemma_settle_is_suffix(bytes: Seq<u8>)
    ensures
        exists|k: int| 0 <= k <= bytes.len() && settle(bytes) == #[trigger] bytes.skip(k),
    decreases bytes.len(),
{
    lemma_event_len_bounds(bytes, 1);
    assert(bytes.skip(0) =~= bytes);
    match first_event_len(bytes) {
        Some(len) => {
            if !may_overflow(bytes.take(len as int)) {
                let rest = bytes.skip(len as int);
                lemma_settle_is_suffix(rest);
                let k = choose|k: int| 0 <= k <= rest.len() && settle(rest) == #[trigger] rest.skip(k);
                assert(rest.skip(k) =~= bytes.skip(len + k));
            }
        },
        None => {
            if bytes.len() >= MAX_PENDING_BYTES {
                assert(settle(bytes) == bytes.skip(1));
            }
        },
    }
}

/// Each decoded key takes at least one byte, so there are never more keys
/// than bytes.
pub proof fn lemma_decoded_keys_bounded(bytes: Seq<u8>)
    ensures
        decoded_keys(bytes).len() <= bytes.len(),
    decreases bytes.len(),
{
    lemma_event_len_bounds(bytes, 1);
    if let Some(len) = first_event_len(bytes) {
        if !may_overflow(bytes.take(len as int)) {
            lemma_decoded_keys_bounded(bytes.skip(len as int));
        }
    }
}

} // verus!
