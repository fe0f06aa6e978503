use vstd::prelude::*;

use crate::segmented::NO_HOVER;

verus! {

/// Messages from the F-key toolbar.
#[derive(Debug, Clone, Copy, PartialEq, Eq, Structural)]
pub enum FKeyToolbarMessage {
    /// Click on an F-key slot to type its character
    TypeFKey(usize),
    /// Click on an F-key label to open the character selector popup
    OpenCharSelector(usize),
    /// Navigate to the previous F-key set
    PrevSet,
    /// Navigate to the next F-key set
    NextSet,
}

/// What part of the toolbar the pointer is over.
pub const HOVER_LABEL: u32 = 0;
pub const HOVER_CHAR: u32 = 1;
pub const HOVER_PREV: u32 = 2;
pub const HOVER_NEXT: u32 = 3;

/// The message a left click sends, given the hovered slot (`NO_HOVER` for
/// none) and what part of the toolbar is hovered: on a slot, its character
/// types it and its label opens the character selector; otherwise the
/// navigation arrows change the set.
pub open spec fn spec_fkey_click(slot: u32, hover_type: u32) -> Option<FKeyToolbarMessage> {
    if slot != NO_HOVER {
        if hover_type == HOVER_CHAR {
            Some(FKeyToolbarMessage::TypeFKey(slot as usize))
        } else {
            Some(FKeyToolbarMessage::OpenCharSelector(slot as usize))
        }
    } else if hover_type == HOVER_PREV {
        Some(FKeyToolbarMessage::PrevSet)
    } else if hover_type == HOVER_NEXT {
        Some(FKeyToolbarMessage::NextSet)
    } else {
        None
    }
}

/// The message a left click on the toolbar sends.
pub fn fkey_click_message(slot: u32, hover_type: u32) -> (r: Option<FKeyToolbarMessage>)
    ensures
        r == spec_fkey_click(slot, hover_type),
{
    if slot != NO_HOVER {
        if hover_type == HOVER_CHAR {
            Some(FKeyToolbarMessage::TypeFKey(slot as usize))
        } else {
            Some(FKeyToolbarMessage::OpenCharSelector(slot as usize))
        }
    } else if hover_type == HOVER_PREV {
        Some(FKeyToolbarMessage::PrevSet)
    } else if hover_type == HOVER_NEXT {
        Some(FKeyToolbarMessage::NextSet)
    } else {
        None
    }
}

/// Whether the pointer is over something clickable (a slot or an arrow).
pub fn fkey_is_clickable(slot: u32, hover_type: u32) -> (r: bool)
    ensures
        r == (slot != NO_HOVER || hover_type == HOVER_PREV || hover_type == HOVER_NEXT),
{
    slot != NO_HOVER || hover_type == HOVER_PREV || hover_type == HOVER_NEXT
}

/// F-key toolbar state kept between frames.
#[derive(Debug, Clone, Copy, PartialEq, Eq, Structural)]
pub struct ShaderFKeyToolbar {
    /// Hovered slot (`NO_HOVER` for none)
    pub hovered_slot: u32,
    /// What part of the toolbar is hovered
    pub hover_type: u32,
    /// Bits of the label space shared with hit testing
    pub nav_label_space_bits: u32,
}

impl ShaderFKeyToolbar {
    pub fn new() -> (r: ShaderFKeyToolbar)
        ensures
            r.hovered_slot == NO_HOVER,
            r.hover_type == 0,
            r.nav_label_space_bits == 0,
    {
        ShaderFKeyToolbar { hovered_slot: NO_HOVER, hover_type: 0, nav_label_space_bits: 0 }
    }

    /// Clear the render cache (the cache is owned per view; nothing to do).
    pub fn clear_cache(&mut self)
        ensures
            *final(self) == *old(self),
    {
    }

    /// Record the hover state: the hit test's (slot, hover type) while the
    /// pointer is over the toolbar, nothing hovered otherwise.
    pub fn set_hover(&mut self, hover: Option<(u32, u32)>)
        ensures
            match hover {
                Some(h) => final(self).hovered_slot == h.0 && final(self).hover_type == h.1,
                None => final(self).hovered_slot == NO_HOVER && final(self).hover_type == 0,
            },
            final(self).nav_label_space_bits == old(self).nav_label_space_bits,
    {
        match hover {
            Some(h) => {
                self.hovered_slot = h.0;
                self.hover_type = h.1;
            },
            None => {
                self.hovered_slot = NO_HOVER;
                self.hover_type = 0;
            },
        }
    }
}

impl Default for ShaderFKeyToolbar {
    fn default() -> (r: ShaderFKeyToolbar)
        ensures
            r.hovered_slot == NO_HOVER,
            r.hover_type == 0,
            r.nav_label_space_bits == 0,
    {
        ShaderFKeyToolbar::new()
    }
}

// ---------------------------------------------------------------------------
// F-key sets
// ---------------------------------------------------------------------------

/// The F-key set actually selected when set `set_idx` is asked for among
/// `count` sets: the index wraps around; with no sets it is 0.
pub open spec fn spec_clamp_fkey_set(set_idx: int, count: int) -> int {
    if count == 0 {
        0
    } else {
        set_idx % count
    }
}

/// The F-key set selected when set `set_idx` is asked for.
pub fn clamp_fkey_set(set_idx: usize, count: usize) -> (r: usize)
    ensures
        r == spec_clamp_fkey_set(set_idx as int, count as int),
        count > 0 ==> r < count,
{
    if count == 0 {
        0
    } else {
        set_idx % count
    }
}

/// The set after `cur` (wrapping around).
pub fn next_fkey_set(cur: usize, count: usize) -> (r: usize)
    ensures
        r == spec_clamp_fkey_set(if cur == usize::MAX {
            cur as int
        } else {
            cur + 1
        }, count as int),
{
    let next = cur.saturating_add(1);
    clamp_fkey_set(next, count)
}

/// The set before `cur` (wrapping around).
pub fn prev_fkey_set(cur: usize, count: usize) -> (r: usize)
    requires
        count == 0 || cur + count <= usize::MAX,
    ensures
        r == if count == 0 {
            0
        } else {
            (cur + count - 1) % (count as int)
        },
{
    let prev = if count == 0 {
        0
    } else {
        (cur + count - 1) % count
    };
    proof {
        if count > 0 {
            vstd::arithmetic::div_mod::lemma_small_mod(prev as nat, count as nat);
        }
    }
    clamp_fkey_set(prev, count)
}

/// The set after `cur` among `count` sets.
pub open spec fn spec_next_fkey_set(cur: int, count: int) -> int {
    spec_clamp_fkey_set(if cur == usize::MAX {
        cur
    } else {
        cur + 1
    }, count)
}

/// The set before `cur` among `count` sets.
pub open spec fn spec_prev_fkey_set(cur: int, count: int) -> int {
    if count == 0 {
        0
    } else {
        (cur + count - 1) % count
    }
}

/// Paging forward and back through the F-key sets undo each other: from any
/// set, the previous set of the next one, and the next set of the previous
/// one, is the set itself.
pub proof fn lemma_fkey_pages_undo(cur: int, count: int)
    requires
        0 <= cur < count <= usize::MAX,
    ensures
        spec_prev_fkey_set(spec_next_fkey_set(cur, count), count) == cur,
        spec_next_fkey_set(spec_prev_fkey_set(cur, count), count) == cur,
{
    vstd::arithmetic::div_mod::lemma_small_mod(cur as nat, count as nat);
    if cur + 1 < count {
        vstd::arithmetic::div_mod::lemma_small_mod((cur + 1) as nat, count as nat);
        vstd::arithmetic::div_mod::lemma_mod_add_multiples_vanish(cur, count);
    } else {
        vstd::arithmetic::div_mod::lemma_mod_self_0(count);
        vstd::arithmetic::div_mod::lemma_small_mod((count - 1) as nat, count as nat);
    }
    if cur > 0 {
        vstd::arithmetic::div_mod::lemma_mod_add_multiples_vanish(cur - 1, count);
        vstd::arithmetic::div_mod::lemma_small_mod((cur - 1) as nat, count as nat);
    } else {
        vstd::arithmetic::div_mod::lemma_small_mod((count - 1) as nat, count as nat);
        vstd::arithmetic::div_mod::lemma_mod_self_0(count);
    }
}

} // verus!
