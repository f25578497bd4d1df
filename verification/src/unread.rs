use vstd::prelude::*;

use crate::dashboard::DashboardState;
use crate::discord_state::MessageState;
use crate::keyed::keys_of;

verus! {

/// The banner above the message pane: the last message read when the channel was opened,
/// and how many loaded messages are newer than it.
#[derive(Clone, Copy, Debug, PartialEq, Eq)]
pub struct UnreadBanner {
    pub since_message_id: u64,
    pub unread_count: usize,
}

/// How many of `ms` have an id above `id`.
pub open spec fn count_newer(ms: Seq<MessageState>, id: u64) -> nat
    decreases ms.len(),
{
    if ms.len() == 0 {
        0
    } else {
        count_newer(ms.drop_last(), id) + if ms.last().id > id {
            1nat
        } else {
            0nat
        }
    }
}

/// The position of the first of `ms` with an id above `id`.
pub open spec fn first_newer(ms: Seq<MessageState>, id: u64) -> Option<int> {
    if exists|i: int| 0 <= i < ms.len() && ms[i].id > id {
        Some(choose|i: int| 0 <= i < ms.len() && ms[i].id > id && forall|j: int| 0 <= j < i ==> ms[j].id <= id)
    } else {
        None
    }
}

proof fn lemma_count_newer_bound(ms: Seq<MessageState>, id: u64)
    ensures
        count_newer(ms, id) <= ms.len(),
    decreases ms.len(),
{
    if ms.len() > 0 {
        lemma_count_newer_bound(ms.drop_last(), id);
    }
}

impl DashboardState {
    /// Where the unread divider goes: before the first listed message newer than the
    /// captured last-read message; nowhere in the pinned view or without a captured one.
    pub open spec fn unread_divider_index_spec(self) -> Option<int> {
        if self.pinned_view_active_spec() {
            None
        } else {
            match self.unread_divider_last_acked_id {
                Some(acked) => first_newer(self.messages_spec(), acked),
                None => None,
            }
        }
    }

    /// The banner: the captured last-read message and the count of listed messages newer
    /// than it; none in the pinned view, without a captured message, or with no newer one.
    pub open spec fn unread_banner_spec(self) -> Option<(u64, nat)> {
        if self.pinned_view_active_spec() {
            None
        } else {
            match self.unread_divider_last_acked_id {
                Some(acked) => {
                    let n = count_newer(self.messages_spec(), acked);
                    if n == 0 {
                        None
                    } else {
                        Some((acked, n))
                    }
                },
                None => None,
            }
        }
    }

    pub fn unread_divider_message_index(&self) -> (index: Option<usize>)
        ensures
            match index {
                Some(i) => self.unread_divider_index_spec() == Some(i as int),
                None => self.unread_divider_index_spec() is None,
            },
    {
        if self.is_pinned_message_view() {
            return None;
        }
        let acked = match self.unread_divider_last_acked_id {
            Some(a) => a,
            None => {
                return None;
            },
        };
        let messages = self.messages();
        let mut i: usize = 0;
        while i < messages.len()
            invariant
                messages@ == self.messages_spec(),
                !self.pinned_view_active_spec(),
                self.unread_divider_last_acked_id == Some(acked),
                i <= messages@.len(),
                forall|j: int| 0 <= j < i ==> messages@[j].id <= acked,
            decreases messages@.len() - i,
        {
            if messages[i].id > acked {
                let ghost ms = messages@;
                assert(exists|k: int| 0 <= k < ms.len() && ms[k].id > acked);
                let ghost c = choose|k: int|
                    0 <= k < ms.len() && ms[k].id > acked && forall|j: int| 0 <= j < k ==> ms[j].id <= acked;
                assert(0 <= i < ms.len() && ms[i as int].id > acked && forall|j: int| 0 <= j < i ==> ms[j].id <= acked);
                assert(c == i) by {
                    if c < i {
                    } else if c > i {
                    }
                }
                assert(first_newer(ms, acked) == Some(i as int));
                return Some(i);
            }
            i = i + 1;
        }
        None
    }

    /// Whether the unread divider goes before listed message `index`.
    pub fn should_draw_unread_divider_at(&self, index: usize) -> (draw: bool)
        ensures
            draw == (self.unread_divider_index_spec() == Some(index as int)),
    {
        match self.unread_divider_message_index() {
            Some(i) => i == index,
            None => false,
        }
    }

    pub fn unread_banner(&self) -> (banner: Option<UnreadBanner>)
        ensures
            match banner {
                Some(b) => self.unread_banner_spec() == Some((b.since_message_id, b.unread_count as nat)),
                None => self.unread_banner_spec() is None,
            },
    {
        if self.is_pinned_message_view() {
            return None;
        }
        let acked = match self.unread_divider_last_acked_id {
            Some(a) => a,
            None => {
                return None;
            },
        };
        let messages = self.messages();
        let mut count: usize = 0;
        let mut i: usize = 0;
        while i < messages.len()
            invariant
                i <= messages@.len(),
                count == count_newer(messages@.take(i as int), acked),
            decreases messages@.len() - i,
        {
            proof {
                lemma_count_newer_bound(messages@.take(i as int), acked);
                assert(messages@.take(i + 1).drop_last() =~= messages@.take(i as int));
            }
            if messages[i].id > acked {
                count = count + 1;
            }
            i = i + 1;
        }
        assert(messages@.take(i as int) =~= messages@);
        if count == 0 {
            return None;
        }
        Some(UnreadBanner { since_message_id: acked, unread_count: count })
    }

    /// The dashboard after `try_apply_unread_anchor_scroll`.
    pub open spec fn after_unread_anchor(self) -> DashboardState {
        let applies = self.pending_unread_anchor_scroll && self.unread_divider_index_spec() is Some
            && self.message_len_spec() > 0;
        if applies {
            let d = self.unread_divider_index_spec()->0;
            let n = self.message_len_spec();
            DashboardState {
                message_scroll: (if d > 0 { d - 1 } else { 0int }) as usize,
                message_line_scroll: 0,
                selected_message: (if d < n { d as int } else { n - 1 }) as usize,
                message_keep_selection_visible: false,
                message_auto_follow: false,
                pending_unread_anchor_scroll: false,
                ..self
            }
        } else {
            self
        }
    }

    /// Puts the view at the unread divider once, when a channel was opened with unread
    /// messages: the last message read at the top, the cursor on the first unread one, and
    /// the view no longer following the latest message. Nothing happens while no jump is
    /// pending, while the divider's message is not loaded yet, or with an empty pane.
    pub fn try_apply_unread_anchor_scroll(&mut self)
        ensures
            ({
                let applies = old(self).pending_unread_anchor_scroll
                    && old(self).unread_divider_index_spec() is Some
                    && old(self).message_len_spec() > 0;
                &&& !applies ==> *final(self) == *old(self)
                &&& applies ==> {
                    let d = old(self).unread_divider_index_spec()->0;
                    let n = old(self).message_len_spec();
                    &&& final(self).message_scroll == (if d > 0 { d - 1 } else { 0 })
                    &&& final(self).message_line_scroll == 0
                    &&& final(self).selected_message == (if d < n { d } else { n - 1 })
                    &&& !final(self).message_keep_selection_visible
                    &&& !final(self).message_auto_follow
                    &&& !final(self).pending_unread_anchor_scroll
                    &&& final(self).discord == old(self).discord
                    &&& final(self).active_channel_id == old(self).active_channel_id
                    &&& final(self).focus == old(self).focus
                    &&& final(self).composer == old(self).composer
                }
            }),
            *final(self) == old(self).after_unread_anchor(),
    {
        if !self.pending_unread_anchor_scroll {
            return;
        }
        let divider = match self.unread_divider_message_index() {
            Some(d) => d,
            None => {
                return;
            },
        };
        let count = self.message_pane_item_count();
        if count == 0 {
            return;
        }
        self.message_scroll = if divider > 0 {
            divider - 1
        } else {
            0
        };
        self.message_line_scroll = 0;
        self.selected_message = if divider < count {
            divider
        } else {
            count - 1
        };
        self.message_keep_selection_visible = false;
        self.message_auto_follow = false;
        self.pending_unread_anchor_scroll = false;
    }

    /// How many listed messages the new-messages notice counts: the marked first unread
    /// message and every message after it; none without a marker or when its message is not
    /// listed.
    pub open spec fn new_messages_count_spec(self) -> nat {
        match self.new_messages_marker_message_id {
            Some(id) => match self.message_position(id) {
                Some(i) => (self.messages_spec().len() - i) as nat,
                None => 0,
            },
            None => 0,
        }
    }

    pub fn new_messages_count(&self) -> (count: usize)
        ensures
            count == self.new_messages_count_spec(),
    {
        let id = match self.new_messages_marker_message_id {
            Some(id) => id,
            None => {
                return 0;
            },
        };
        match self.message_index_of(id) {
            Some(i) => {
                let n = self.messages().len();
                proof {
                    crate::dashboard::lemma_first_index_of_contains(keys_of(self.messages_spec()), id);
                }
                n - i
            },
            None => 0,
        }
    }
}

} // verus!
