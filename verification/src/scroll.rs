use vstd::prelude::*;

verus! {

/// The index of the last of `len` items; 0 for an empty list.
pub open spec fn last_index_spec(len: nat) -> nat {
    if len == 0 {
        0
    } else {
        (len - 1) as nat
    }
}

pub fn last_index(len: usize) -> (i: usize)
    ensures
        i == last_index_spec(len as nat),
{
    len.saturating_sub(1)
}

/// An index kept inside a list of `len` items (0 for an empty list).
pub open spec fn clamp_index_spec(index: nat, len: nat) -> nat {
    if index > last_index_spec(len) {
        last_index_spec(len)
    } else {
        index
    }
}

pub fn clamp_selected_index(index: usize, len: usize) -> (i: usize)
    ensures
        i == clamp_index_spec(index as nat, len as nat),
        len > 0 ==> i < len,
        len == 0 ==> i == 0,
{
    if index > last_index(len) {
        last_index(len)
    } else {
        index
    }
}

/// Rows a pane shows for a given view height: at least one.
pub open spec fn pane_content_height_spec(view_height: nat) -> nat {
    if view_height == 0 {
        1
    } else {
        view_height
    }
}

pub fn pane_content_height(view_height: usize) -> (h: usize)
    ensures
        h == pane_content_height_spec(view_height as nat),
        h >= 1,
{
    if view_height == 0 {
        1
    } else {
        view_height
    }
}

/// An index moved one item down a list of `len` items, stopping at the last item.
pub open spec fn move_down_spec(index: nat, len: nat) -> nat {
    if len == 0 {
        0
    } else if index + 1 < len {
        index + 1
    } else {
        (len - 1) as nat
    }
}

/// Moves an index one item down, stopping at the last item.
pub fn move_index_down(index: &mut usize, len: usize)
    ensures
        *final(index) == move_down_spec(*old(index) as nat, len as nat),
{
    if len == 0 {
        *index = 0;
    } else if *index < len - 1 {
        *index = *index + 1;
    } else {
        *index = len - 1;
    }
}

/// Moves an index one item up, stopping at the first item.
pub fn move_index_up(index: &mut usize)
    ensures
        *final(index) == if *old(index) == 0 {
            0
        } else {
            (*old(index) - 1) as usize
        },
{
    *index = index.saturating_sub(1);
}

/// Moves an index `distance` items down, stopping at the last item.
pub fn move_index_down_by(index: &mut usize, len: usize, distance: usize)
    ensures
        *final(index) == clamp_index_spec(*old(index) as nat + distance as nat, len as nat),
{
    *index = clamp_selected_index(index.saturating_add(distance), len);
}

/// Moves an index `distance` items up, stopping at the first item.
pub fn move_index_up_by(index: &mut usize, distance: usize)
    ensures
        *final(index) == if *old(index) >= distance {
            (*old(index) - distance) as usize
        } else {
            0
        },
{
    *index = index.saturating_sub(distance);
}

/// The largest scroll offset of a list of `len` items shown `height` rows at a time.
pub open spec fn max_scroll_spec(len: nat, height: nat) -> nat {
    if len > height {
        (len - height) as nat
    } else {
        0
    }
}

/// The scroll offset of a list after it is kept in range and, when asked, made to show the
/// selected item.
pub open spec fn clamp_list_scroll_spec(
    selected: nat,
    scroll: nat,
    height: nat,
    len: nat,
    keep_visible: bool,
) -> nat {
    let bounded = if scroll > max_scroll_spec(len, height) {
        max_scroll_spec(len, height)
    } else {
        scroll
    };
    if len == 0 {
        0
    } else if !keep_visible {
        bounded
    } else if selected < bounded {
        selected
    } else if selected >= bounded + height {
        (selected + 1 - height) as nat
    } else {
        bounded
    }
}

/// Keeps a list's scroll offset in range and, when `keep_visible`, the selected item on screen.
pub fn clamp_list_viewport(
    selected: usize,
    scroll: &mut usize,
    height: usize,
    len: usize,
    keep_visible: bool,
)
    requires
        height >= 1,
    ensures
        *final(scroll) == clamp_list_scroll_spec(
            selected as nat,
            *old(scroll) as nat,
            height as nat,
            len as nat,
            keep_visible,
        ),
{
    if len == 0 {
        *scroll = 0;
        return;
    }
    let max_scroll = len.saturating_sub(height);
    if *scroll > max_scroll {
        *scroll = max_scroll;
    }
    if !keep_visible {
        return;
    }
    if selected < *scroll {
        *scroll = selected;
    } else if selected - *scroll >= height {
        *scroll = selected - (height - 1);
    }
}

/// With the selection inside the list, a kept-visible list shows it and scrolls no further
/// than its last page (or the selection) allows.
pub proof fn lemma_clamped_list_shows_selection(selected: nat, scroll: nat, height: nat, len: nat)
    requires
        height >= 1,
        selected < len,
    ensures
        ({
            let s = clamp_list_scroll_spec(selected, scroll, height, len, true);
            s <= selected && selected < s + height && s <= max_scroll_spec(len, height) + selected
        }),
{
}

/// Clamping a list's scroll offset a second time, with the same selection, pane and list,
/// changes nothing.
pub proof fn lemma_clamp_list_scroll_idempotent(
    selected: nat,
    scroll: nat,
    height: nat,
    len: nat,
    keep_visible: bool,
)
    requires
        height >= 1,
        len == 0 || selected < len,
    ensures
        ({
            let s = clamp_list_scroll_spec(selected, scroll, height, len, keep_visible);
            clamp_list_scroll_spec(selected, s, height, len, keep_visible) == s
        }),
{
}

/// Scrolls a list one row down, no further than its last page.
pub fn scroll_list_down(scroll: &mut usize, height: usize, len: usize)
    ensures
        *final(scroll) == if *old(scroll) as nat + 1 <= max_scroll_spec(len as nat, height as nat) {
            (*old(scroll) + 1) as nat
        } else if *old(scroll) as nat > max_scroll_spec(len as nat, height as nat) {
            *old(scroll) as nat
        } else {
            max_scroll_spec(len as nat, height as nat)
        },
{
    let max_scroll = len.saturating_sub(height);
    if *scroll < max_scroll {
        *scroll = *scroll + 1;
    }
}

/// Scrolls a list one row up, no further than the top.
pub fn scroll_list_up(scroll: &mut usize)
    ensures
        *final(scroll) == if *old(scroll) == 0 {
            0
        } else {
            (*old(scroll) - 1) as usize
        },
{
    *scroll = scroll.saturating_sub(1);
}


/// The rows item `i` of a laid-out list takes: its recorded height, and at least one row (an
/// item whose height was not recorded takes one row).
pub open spec fn laid_out_row_height(heights: Seq<usize>, i: int) -> nat {
    if 0 <= i < heights.len() && heights[i] > 0 {
        heights[i] as nat
    } else {
        1
    }
}

/// The viewport that puts the bottom of item `count - 1` at the bottom of a pane with
/// `remaining` rows: the first item shown and how many of its rows are scrolled past. Items
/// are taken from the last one up until one fills what is left of the pane; when all of them
/// fit, the viewport starts at the top.
pub open spec fn bottom_aligned_viewport(heights: Seq<usize>, count: nat, remaining: nat) -> (nat, nat)
    decreases count,
{
    if count == 0 {
        (0, 0)
    } else {
        let h = laid_out_row_height(heights, count - 1);
        if h >= remaining {
            ((count - 1) as nat, (h - remaining) as nat)
        } else {
            bottom_aligned_viewport(heights, (count - 1) as nat, (remaining - h) as nat)
        }
    }
}

/// Computes `bottom_aligned_viewport` for the first `count` items of a laid-out list.
pub fn bottom_aligned_viewport_of(heights: &Vec<usize>, count: usize, rows: usize) -> (r: (usize, usize))
    ensures
        r.0 as nat == bottom_aligned_viewport(heights@, count as nat, rows as nat).0,
        r.1 as nat == bottom_aligned_viewport(heights@, count as nat, rows as nat).1,
{
    let mut remaining = rows;
    let mut i = count;
    while i > 0
        invariant
            i <= count,
            bottom_aligned_viewport(heights@, count as nat, rows as nat)
                == bottom_aligned_viewport(heights@, i as nat, remaining as nat),
        decreases i,
    {
        let index = i - 1;
        let h = if index < heights.len() && heights[index] > 0 {
            heights[index]
        } else {
            1
        };
        if h >= remaining {
            return (index, h - remaining);
        }
        remaining = remaining - h;
        i = index;
    }
    (0, 0)
}
} // verus!
