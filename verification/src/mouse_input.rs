use vstd::prelude::*;

use crate::dashboard::{ActiveGuildScope, ChannelActionMenuState, DashboardState, FocusPane};
use crate::events::{AppCommand, AppEvent};
use crate::scroll::{clamp_index_spec, clamp_selected_index};

verus! {

/// The longest a pair of clicks on one target may be apart, in milliseconds, to count as a
/// double click.
pub const DOUBLE_CLICK_MAX_DELAY_MS: u64 = 500;

/// A rectangle of terminal cells.
#[derive(Clone, Copy, Debug, PartialEq, Eq, Structural)]
pub struct Rect {
    pub x: u16,
    pub y: u16,
    pub width: u16,
    pub height: u16,
}

/// Which action menu a click landed in.
#[derive(Clone, Copy, Debug, PartialEq, Eq, Structural)]
pub enum ActionMenuTarget {
    Message,
    Guild,
    Channel,
    Member,
}

/// What a mouse position points at.
#[derive(Clone, Copy, Debug, PartialEq, Eq, Structural)]
pub enum MouseTarget {
    Composer,
    ModalBackdrop,
    ActionRow { menu: ActionMenuTarget, row: usize },
    Pane(FocusPane),
    PaneRow { pane: FocusPane, row: usize },
}

/// `a + b`, kept at most `u16::MAX`.
pub open spec fn sat_add_u16(a: u16, b: u16) -> u16 {
    if a + b > u16::MAX {
        u16::MAX
    } else {
        (a + b) as u16
    }
}

/// `a - b`, kept at least 0.
pub open spec fn sat_sub_u16(a: u16, b: u16) -> u16 {
    if a >= b {
        (a - b) as u16
    } else {
        0
    }
}

/// Whether a cell lies inside a rectangle (whose far edges are kept within the screen).
pub open spec fn rect_contains_spec(area: Rect, column: u16, row: u16) -> bool {
    &&& column >= area.x
    &&& column < sat_add_u16(area.x, area.width)
    &&& row >= area.y
    &&& row < sat_add_u16(area.y, area.height)
}

pub fn rect_contains(area: Rect, column: u16, row: u16) -> (inside: bool)
    ensures
        inside == rect_contains_spec(area, column, row),
{
    column >= area.x && column < area.x.saturating_add(area.width) && row >= area.y
        && row < area.y.saturating_add(area.height)
}

/// The inside of a rectangle drawn with a border on every side.
pub open spec fn bordered_inner_spec(r: Rect) -> Rect {
    let right = sat_add_u16(r.x, r.width);
    let bottom = sat_add_u16(r.y, r.height);
    Rect {
        x: if sat_add_u16(r.x, 1) <= right {
            sat_add_u16(r.x, 1)
        } else {
            right
        },
        y: if sat_add_u16(r.y, 1) <= bottom {
            sat_add_u16(r.y, 1)
        } else {
            bottom
        },
        width: sat_sub_u16(r.width, 2),
        height: sat_sub_u16(r.height, 2),
    }
}

/// The inside of a bordered panel (`ratatui::widgets::Block::bordered().inner`). Claimed,
/// as that function's source computes it: the left and top edges move in by one cell (not
/// past the far edges), width and height shrink by two, saturating at 0.
#[verifier::external_body]
fn bordered_inner(r: Rect) -> (inner: Rect)
    ensures
        inner == bordered_inner_spec(r),
{
    let area = ratatui::layout::Rect { x: r.x, y: r.y, width: r.width, height: r.height };
    let inner = ratatui::widgets::Block::bordered().inner(area);
    Rect { x: inner.x, y: inner.y, width: inner.width, height: inner.height }
}

/// What a click in a pane's rectangle points at: a row of the pane when it is inside the
/// border (counted from the top of the inside), else the pane itself; nothing outside.
pub open spec fn pane_row_target_spec(area: Rect, pane: FocusPane, column: u16, row: u16) -> Option<
    MouseTarget,
> {
    if !rect_contains_spec(area, column, row) {
        None
    } else {
        let inner = bordered_inner_spec(area);
        if rect_contains_spec(inner, column, row) {
            Some(MouseTarget::PaneRow { pane, row: sat_sub_u16(row, inner.y) as usize })
        } else {
            Some(MouseTarget::Pane(pane))
        }
    }
}

pub fn pane_row_mouse_target(area: Rect, pane: FocusPane, column: u16, row: u16) -> (target: Option<
    MouseTarget,
>)
    ensures
        target == pane_row_target_spec(area, pane, column, row),
{
    if !rect_contains(area, column, row) {
        return None;
    }
    let inner = bordered_inner(area);
    if rect_contains(inner, column, row) {
        return Some(MouseTarget::PaneRow { pane, row: row.saturating_sub(inner.y) as usize });
    }
    Some(MouseTarget::Pane(pane))
}

/// What a click points at while an action menu is open: one of its items when it lands on
/// an item row inside the popup's border; otherwise the backdrop around the menu.
pub open spec fn action_menu_row_target_spec(
    popup: Option<Rect>,
    item_count: usize,
    menu: ActionMenuTarget,
    column: u16,
    row: u16,
) -> MouseTarget {
    match popup {
        None => MouseTarget::ModalBackdrop,
        Some(p) => if !rect_contains_spec(p, column, row) {
            MouseTarget::ModalBackdrop
        } else {
            let inner = bordered_inner_spec(p);
            let r = sat_sub_u16(row, inner.y) as usize;
            if rect_contains_spec(inner, column, row) && r < item_count {
                MouseTarget::ActionRow { menu, row: r }
            } else {
                MouseTarget::ModalBackdrop
            }
        },
    }
}

pub fn action_menu_row_target(
    popup: Option<Rect>,
    item_count: usize,
    menu: ActionMenuTarget,
    column: u16,
    row: u16,
) -> (target: Option<MouseTarget>)
    ensures
        target == Some(action_menu_row_target_spec(popup, item_count, menu, column, row)),
{
    let popup = match popup {
        Some(p) => p,
        None => {
            return Some(MouseTarget::ModalBackdrop);
        },
    };
    if !rect_contains(popup, column, row) {
        return Some(MouseTarget::ModalBackdrop);
    }
    let inner = bordered_inner(popup);
    if rect_contains(inner, column, row) {
        let r = row.saturating_sub(inner.y) as usize;
        if r < item_count {
            return Some(MouseTarget::ActionRow { menu, row: r });
        }
    }
    Some(MouseTarget::ModalBackdrop)
}

/// The last left click: where it landed and when, in milliseconds.
#[derive(Clone, Copy, Debug, PartialEq, Eq, Structural)]
pub struct MouseClick {
    pub target: MouseTarget,
    pub at_ms: u64,
}

/// Remembers the last left click, to recognise double clicks.
#[derive(Clone, Copy, Debug, PartialEq, Eq, Structural)]
pub struct MouseClickTracker {
    pub last_left_click: Option<MouseClick>,
}

/// What handling a mouse event came to: whether the dashboard used it, and a command to
/// run.
#[derive(Debug)]
pub struct MouseOutcome {
    pub handled: bool,
    pub command: Option<AppCommand>,
}

impl MouseOutcome {
    pub fn ignored() -> (o: Self)
        ensures
            !o.handled && o.command is None,
    {
        MouseOutcome { handled: false, command: None }
    }

    pub fn handled(command: Option<AppCommand>) -> (o: Self)
        ensures
            o.handled && o.command == command,
    {
        MouseOutcome { handled: true, command }
    }
}

/// The current time in milliseconds since the Unix epoch (`std::time::SystemTime`). Nothing
/// is claimed of the value: it comes from the clock.
#[verifier::external_body]
fn now_millis() -> (ms: u64) {
    match std::time::SystemTime::now().duration_since(std::time::UNIX_EPOCH) {
        Ok(d) => u64::try_from(d.as_millis()).unwrap_or(u64::MAX),
        Err(_) => 0,
    }
}

impl MouseClickTracker {
    pub fn new() -> (t: Self)
        ensures
            t.last_left_click is None,
    {
        MouseClickTracker { last_left_click: None }
    }

    /// Whether a click on `target` at `now_ms` completes a double click: the last click was
    /// on the same target at most the double-click delay earlier (a clock that went back
    /// counts as no time).
    pub open spec fn is_double_click(self, target: MouseTarget, now_ms: u64) -> bool {
        match self.last_left_click {
            Some(c) => c.target == target && (now_ms < c.at_ms || now_ms - c.at_ms
                <= DOUBLE_CLICK_MAX_DELAY_MS),
            None => false,
        }
    }

    pub fn clear(&mut self)
        ensures
            final(self).last_left_click is None,
    {
        self.last_left_click = None;
    }

    /// Records a left click at `now_ms`; a double click is reported and forgotten, so a third
    /// click starts anew.
    pub fn record_left_click_at(&mut self, target: MouseTarget, now_ms: u64) -> (double: bool)
        ensures
            double == old(self).is_double_click(target, now_ms),
            double ==> final(self).last_left_click is None,
            !double ==> final(self).last_left_click == Some(MouseClick { target, at_ms: now_ms }),
    {
        let double = match self.last_left_click {
            Some(c) => c.target == target && now_ms.saturating_sub(c.at_ms)
                <= DOUBLE_CLICK_MAX_DELAY_MS,
            None => false,
        };
        self.last_left_click = if double {
            None
        } else {
            Some(MouseClick { target, at_ms: now_ms })
        };
        double
    }

    /// Records a left click now, as `record_left_click_at` says for the clock's time.
    pub fn record_left_click(&mut self, target: MouseTarget) -> (double: bool)
        ensures
            exists|now_ms: u64|
                {
                    &&& double == old(self).is_double_click(target, now_ms)
                    &&& double ==> final(self).last_left_click is None
                    &&& !double ==> final(self).last_left_click == Some(
                        MouseClick { target, at_ms: now_ms },
                    )
                },
    {
        let now_ms = now_millis();
        self.record_left_click_at(target, now_ms)
    }
}

/// Mouse input goes to an open action menu, not to the panes behind it.
pub open spec fn ignores_dashboard_mouse_spec(state: DashboardState) -> bool {
    state.guild_action_menu is Some || state.channel_action_menu is Some
        || state.member_action_menu is Some
}

pub fn ignores_dashboard_mouse(state: &DashboardState) -> (ignores: bool)
    ensures
        ignores == ignores_dashboard_mouse_spec(*state),
{
    state.is_guild_action_menu_open() || state.is_channel_action_menu_open()
        || state.is_member_action_menu_open()
}

/// Puts the cursor of an open action menu on `row`; false, changing nothing, when that
/// menu is not open. The message action menu is not kept by this dashboard, so it is never
/// open.
pub fn select_action_menu_row(state: &mut DashboardState, menu: ActionMenuTarget, row: usize) -> (selected:
    bool)
    ensures
        action_row_selected(*old(state), *final(state), menu, row, selected),
{
    match menu {
        ActionMenuTarget::Message => false,
        ActionMenuTarget::Guild => {
            if state.guild_action_menu.is_some() {
                state.guild_action_menu = Some(row);
                true
            } else {
                false
            }
        },
        ActionMenuTarget::Channel => match state.channel_action_menu {
            Some(ChannelActionMenuState::Actions { .. }) => {
                state.channel_action_menu = Some(ChannelActionMenuState::Actions { selected: row });
                true
            },
            Some(ChannelActionMenuState::Threads { .. }) => {
                state.channel_action_menu = Some(ChannelActionMenuState::Threads { selected: row });
                true
            },
            None => false,
        },
        ActionMenuTarget::Member => {
            if state.member_action_menu.is_some() {
                state.member_action_menu = Some(row);
                true
            } else {
                false
            }
        },
    }
}

impl DashboardState {
    /// The scope the guild pane's cursor names: the direct messages on the first row, else
    /// the guild of that row.
    pub open spec fn guild_cursor_scope(self) -> ActiveGuildScope {
        let row = clamp_index_spec(self.selected_guild as nat, self.guild_len_spec());
        if row == 0 || row > self.discord.guilds@.len() {
            ActiveGuildScope::DirectMessages
        } else {
            ActiveGuildScope::Guild(self.discord.guilds@[row - 1].id)
        }
    }

    /// Shows the scope under the guild pane's cursor in the channel pane.
    pub fn confirm_selected_guild(&mut self)
        ensures
            final(self).active_guild == old(self).guild_cursor_scope(),
            final(self).discord == old(self).discord,
            final(self).active_channel_id == old(self).active_channel_id,
            final(self).focus == old(self).focus,
    {
        let len = self.guild_entry_count();
        let row = clamp_selected_index(self.selected_guild, len);
        let scope = if row == 0 || row > self.discord.guilds.len() {
            ActiveGuildScope::DirectMessages
        } else {
            ActiveGuildScope::Guild(self.discord.guilds[row - 1].id)
        };
        self.activate_guild(scope);
    }

    /// Opens the channel under the channel pane's cursor, as an `ActivateChannel` event
    /// does; nothing happens on an empty pane.
    pub fn confirm_selected_channel(&mut self)
        ensures
            old(self).channel_cursor_id_spec() is None ==> *final(self) == *old(self),
            old(self).channel_cursor_id_spec() matches Some(id) ==> old(self).after_event(
                *final(self),
                AppEvent::ActivateChannel { channel_id: id },
                true,
            ),
    {
        if let Some(id) = self.selected_channel_cursor_id() {
            self.push_event(AppEvent::ActivateChannel { channel_id: id });
        }
    }
}

/// Acts on what the focused pane has selected: the guild pane shows the selected guild's
/// channels and the channel pane opens the selected channel. Opening a message pane item or
/// a member's profile is not kept by this dashboard. No command comes of it; what opening a
/// channel asks for is queued.
pub fn activate_focused_target(state: &mut DashboardState) -> (command: Option<AppCommand>)
    ensures
        target_activated(*old(state), *final(state), command),
{
    match state.focus() {
        FocusPane::Guilds => {
            state.confirm_selected_guild();
            None
        },
        FocusPane::Channels => {
            state.confirm_selected_channel();
            None
        },
        FocusPane::Messages => None,
        FocusPane::Members => None,
    }
}

/// Whether the action menu a click lands in is open (the message action menu never is).
pub open spec fn action_menu_open(s: DashboardState, menu: ActionMenuTarget) -> bool {
    match menu {
        ActionMenuTarget::Message => false,
        ActionMenuTarget::Guild => s.guild_action_menu is Some,
        ActionMenuTarget::Channel => s.channel_action_menu is Some,
        ActionMenuTarget::Member => s.member_action_menu is Some,
    }
}

/// What `select_action_menu_row` leaves: whether it selected, and `fin`.
pub open spec fn action_row_selected(
    s: DashboardState,
    fin: DashboardState,
    menu: ActionMenuTarget,
    row: usize,
    selected: bool,
) -> bool {
    &&& selected == action_menu_open(s, menu)
    &&& (!selected ==> fin == s)
    &&& (selected && menu == ActionMenuTarget::Guild ==> fin.guild_action_menu == Some(row))
    &&& (selected && menu == ActionMenuTarget::Member ==> fin.member_action_menu == Some(row))
    &&& (selected && menu == ActionMenuTarget::Channel ==> fin.channel_action_menu == Some(
        match s.channel_action_menu->0 {
            ChannelActionMenuState::Actions { .. } => ChannelActionMenuState::Actions { selected: row },
            ChannelActionMenuState::Threads { .. } => ChannelActionMenuState::Threads { selected: row },
        },
    ))
    &&& fin.same_content(s)
    &&& fin.composer == s.composer
}

/// What `activate_focused_target` leaves: the command, and `fin`.
pub open spec fn target_activated(s: DashboardState, fin: DashboardState, command: Option<AppCommand>) -> bool {
    &&& command is None
    &&& (s.focus != FocusPane::Channels ==> fin.focus == s.focus)
    &&& (s.focus == FocusPane::Guilds ==> fin.active_guild == s.guild_cursor_scope())
    &&& (s.focus == FocusPane::Channels ==> (s.channel_cursor_id_spec() matches Some(id) ==> s.after_event(
        fin,
        AppEvent::ActivateChannel { channel_id: id },
        true,
    )))
    &&& (s.focus == FocusPane::Channels && s.channel_cursor_id_spec() is None ==> fin == s)
    &&& (s.focus == FocusPane::Messages || s.focus == FocusPane::Members ==> fin == s)
}

/// The remembered click after a left click on `target` at `now_ms`: none after a double
/// click, else this click.
pub open spec fn click_after(c: MouseClickTracker, target: MouseTarget, now_ms: u64) -> Option<MouseClick> {
    if c.is_double_click(target, now_ms) {
        None
    } else {
        Some(MouseClick { target, at_ms: now_ms })
    }
}

/// `s` with `pane` focused.
pub open spec fn with_focus(s: DashboardState, pane: FocusPane) -> DashboardState {
    DashboardState { focus: pane, ..s }
}

/// What `handle_left_click_at` leaves from dashboard `s` and click memory `c`. The composer
/// target opens the composer (`composer_started`); the backdrop changes nothing; an action
/// row moves that open menu's cursor and is remembered as a click; a pane takes focus; a
/// pane row takes focus and, when it shows an item, selects it, and a double click on it
/// then acts on it (`target_activated`), whose command is the outcome's. Every click is
/// handled; one that selects nothing forgets the last click.
pub open spec fn left_click_handled(
    s: DashboardState,
    c: MouseClickTracker,
    target: MouseTarget,
    now_ms: u64,
    fin: DashboardState,
    fin_clicks: MouseClickTracker,
    outcome: MouseOutcome,
) -> bool {
    &&& outcome.handled
    &&& match target {
        MouseTarget::Composer => fin_clicks.last_left_click is None && s.composer_started(fin)
            && outcome.command is None,
        MouseTarget::ModalBackdrop => fin == s && fin_clicks.last_left_click is None
            && outcome.command is None,
        MouseTarget::ActionRow { menu, row } => {
            &&& outcome.command is None
            &&& action_row_selected(s, fin, menu, row, action_menu_open(s, menu))
            &&& fin_clicks.last_left_click == (if action_menu_open(s, menu) {
                click_after(c, target, now_ms)
            } else {
                None
            })
        },
        MouseTarget::Pane(p) => fin == with_focus(s, p) && fin_clicks.last_left_click is None
            && outcome.command is None,
        MouseTarget::PaneRow { pane, row } => {
            let f = with_focus(s, pane);
            if !f.pane_row_selectable(pane, row) {
                fin == f && fin_clicks.last_left_click is None && outcome.command is None
            } else if !c.is_double_click(target, now_ms) {
                &&& f.pane_row_selected(fin, pane, row, true)
                &&& fin_clicks.last_left_click == Some(MouseClick { target, at_ms: now_ms })
                &&& outcome.command is None
            } else {
                &&& exists|mid: DashboardState|
                    #[trigger] f.pane_row_selected(mid, pane, row, true) && target_activated(
                        mid,
                        fin,
                        outcome.command,
                    )
                &&& fin_clicks.last_left_click is None
            }
        },
    }
}

/// Handles a left click on `target` at `now_ms`. The composer opens the composer; the
/// backdrop of a menu absorbs the click; a menu row moves that menu's cursor; a pane takes
/// focus; a pane row takes focus and is selected, and a double click on it acts on it
/// (`activate_focused_target`). Every click is handled; a click that selects nothing forgets
/// the last click.
pub fn handle_left_click_at(
    state: &mut DashboardState,
    target: MouseTarget,
    clicks: &mut MouseClickTracker,
    now_ms: u64,
) -> (outcome: MouseOutcome)
    ensures
        left_click_handled(*old(state), *old(clicks), target, now_ms, *final(state), *final(clicks), outcome),
{
    match target {
        MouseTarget::Composer => {
            clicks.clear();
            state.start_composer();
            MouseOutcome::handled(None)
        },
        MouseTarget::ModalBackdrop => {
            clicks.clear();
            MouseOutcome::handled(None)
        },
        MouseTarget::ActionRow { menu, row } => {
            let selected = select_action_menu_row(state, menu, row);
            if !selected {
                clicks.clear();
                return MouseOutcome::handled(None);
            }
            let _ = clicks.record_left_click_at(target, now_ms);
            MouseOutcome::handled(None)
        },
        MouseTarget::Pane(pane) => {
            clicks.clear();
            state.focus_pane(pane);
            MouseOutcome::handled(None)
        },
        MouseTarget::PaneRow { pane, row } => {
            state.focus_pane(pane);
            let selected = state.select_visible_pane_row(pane, row);
            if !selected {
                clicks.clear();
                return MouseOutcome::handled(None);
            }
            let command = if clicks.record_left_click_at(target, now_ms) {
                activate_focused_target(state)
            } else {
                None
            };
            MouseOutcome::handled(command)
        },
    }
}

/// Handles a left click now, as `handle_left_click_at` says for the clock's time.
pub fn handle_left_click(
    state: &mut DashboardState,
    target: MouseTarget,
    clicks: &mut MouseClickTracker,
) -> (outcome: MouseOutcome)
    ensures
        exists|now_ms: u64| left_click_handled(*old(state), *old(clicks), target, now_ms, *final(state), *final(clicks), outcome),
{
    let now_ms = now_millis();
    handle_left_click_at(state, target, clicks, now_ms)
}

/// A mouse event, by kind.
#[derive(Clone, Copy, Debug, PartialEq, Eq, Structural)]
pub enum MouseAction {
    LeftDown,
    LeftUp,
    ScrollDown,
    ScrollUp,
    Other,
}

/// The event lands on an open action menu or its backdrop.
pub open spec fn on_action_menu(target: Option<MouseTarget>) -> bool {
    match target {
        Some(MouseTarget::ActionRow { .. }) => true,
        Some(MouseTarget::ModalBackdrop) => true,
        _ => false,
    }
}

/// `s` with the pane under the pointer focused, when there is one.
pub open spec fn with_pointer_focus(s: DashboardState, pane_at: Option<FocusPane>) -> DashboardState {
    match pane_at {
        Some(p) => with_focus(s, p),
        None => s,
    }
}

/// What `handle_mouse_event_at` leaves from dashboard `s` and click memory `c`, past the
/// cases where the event is ignored: a left click on a target is handled as
/// `left_click_handled` says, after closing the composer when the click lands elsewhere
/// (with the last click forgotten); a left click on nothing only closes such a composer;
/// the wheel on an open menu is absorbed, elsewhere it focuses the pane under the pointer
/// and scrolls it (`pane_scrolled_down`, `pane_scrolled_up`); a release is absorbed.
pub open spec fn mouse_event_handled(
    s: DashboardState,
    c: MouseClickTracker,
    action: MouseAction,
    target: Option<MouseTarget>,
    pane_at: Option<FocusPane>,
    now_ms: u64,
    fin: DashboardState,
    fin_clicks: MouseClickTracker,
    outcome: MouseOutcome,
) -> bool {
    let elsewhere = s.composer.active && target != Some(MouseTarget::Composer);
    let forgotten = MouseClickTracker { last_left_click: None };
    match action {
        MouseAction::LeftDown => match target {
            Some(t) => if elsewhere {
                exists|mid: DashboardState|
                    #[trigger] s.composer_cancelled(mid) && left_click_handled(
                        mid,
                        forgotten,
                        t,
                        now_ms,
                        fin,
                        fin_clicks,
                        outcome,
                    )
            } else {
                left_click_handled(s, c, t, now_ms, fin, fin_clicks, outcome)
            },
            None => {
                &&& fin_clicks.last_left_click is None
                &&& outcome.command is None
                &&& outcome.handled == elsewhere
                &&& (elsewhere ==> s.composer_cancelled(fin))
                &&& (!elsewhere ==> fin == s)
            },
        },
        MouseAction::ScrollDown => {
            &&& outcome.handled && outcome.command is None && fin_clicks.last_left_click is None
            &&& (on_action_menu(target) ==> fin == s)
            &&& (!on_action_menu(target) ==> with_pointer_focus(s, pane_at).pane_scrolled_down(fin))
        },
        MouseAction::ScrollUp => {
            &&& outcome.handled && outcome.command is None && fin_clicks.last_left_click is None
            &&& (on_action_menu(target) ==> fin == s)
            &&& (!on_action_menu(target) ==> with_pointer_focus(s, pane_at).pane_scrolled_up(fin))
        },
        MouseAction::LeftUp => outcome.handled && outcome.command is None && fin == s && fin_clicks == c,
        MouseAction::Other => !outcome.handled && outcome.command is None && fin == s
            && fin_clicks.last_left_click is None,
    }
}

/// Handles a mouse event at `now_ms`, given what it points at (`target`) and the pane under
/// it (`pane_at`). While an action menu is open only events on the menu count. While the
/// composer is open, a left click elsewhere cancels it (and is then handled as usual) and
/// other events elsewhere are ignored. A left click goes to `handle_left_click_at`; the wheel
/// focuses the pane under the pointer and scrolls it (on a menu it is absorbed); releasing
/// the button is absorbed; anything else is ignored. Every event but a left click forgets
/// the last click.
#[verifier::rlimit(60)]
pub fn handle_mouse_event_at(
    state: &mut DashboardState,
    action: MouseAction,
    target: Option<MouseTarget>,
    pane_at: Option<FocusPane>,
    clicks: &mut MouseClickTracker,
    now_ms: u64,
) -> (outcome: MouseOutcome)
    ensures
        outcome.command is None,
        ignores_dashboard_mouse_spec(*old(state)) && !on_action_menu(target) ==> !outcome.handled
            && *final(state) == *old(state) && *final(clicks) == *old(clicks),
        !(ignores_dashboard_mouse_spec(*old(state)) && !on_action_menu(target)) ==> ({
            let elsewhere = old(state).composer.active && target != Some(MouseTarget::Composer);
            &&& elsewhere && action != MouseAction::LeftDown ==> !outcome.handled && *final(state)
                == *old(state) && *final(clicks) == *old(clicks)
            &&& elsewhere && action == MouseAction::LeftDown ==> outcome.handled
            &&& !(elsewhere && action != MouseAction::LeftDown) ==> mouse_event_handled(
                *old(state),
                *old(clicks),
                action,
                target,
                pane_at,
                now_ms,
                *final(state),
                *final(clicks),
                outcome,
            )
            &&& !elsewhere ==> (action == MouseAction::LeftDown ==> (outcome.handled <==> target
                is Some))
            &&& !elsewhere ==> (action == MouseAction::LeftUp ==> outcome.handled && *final(state)
                == *old(state))
            &&& !elsewhere ==> (action == MouseAction::Other ==> !outcome.handled && *final(state)
                == *old(state) && final(clicks).last_left_click is None)
            &&& !elsewhere && (action == MouseAction::ScrollDown || action == MouseAction::ScrollUp)
                ==> outcome.handled && final(clicks).last_left_click is None && (!on_action_menu(
                target) ==> (pane_at matches Some(p) ==> final(state).focus == p))
        }),
{
    let action_menu_mouse = match target {
        Some(MouseTarget::ActionRow { .. }) => true,
        Some(MouseTarget::ModalBackdrop) => true,
        _ => false,
    };
    if ignores_dashboard_mouse(state) && !action_menu_mouse {
        return MouseOutcome::ignored();
    }
    let elsewhere = state.is_composing() && target != Some(MouseTarget::Composer);
    let blurred_composer = elsewhere && action == MouseAction::LeftDown;
    if elsewhere && !blurred_composer {
        return MouseOutcome::ignored();
    }
    let ghost s0 = *state;
    if blurred_composer {
        clicks.clear();
        state.cancel_composer();
    }
    let ghost mid = *state;
    match action {
        MouseAction::LeftDown => match target {
            Some(t) => {
                let outcome = handle_left_click_at(state, t, clicks, now_ms);
                proof {
                    if blurred_composer {
                        assert(s0.composer_cancelled(mid));
                    }
                }
                outcome
            },
            None => {
                clicks.clear();
                if blurred_composer {
                    MouseOutcome::handled(None)
                } else {
                    MouseOutcome::ignored()
                }
            },
        },
        MouseAction::ScrollDown => {
            clicks.clear();
            if action_menu_mouse {
                return MouseOutcome::handled(None);
            }
            if let Some(pane) = pane_at {
                state.focus_pane(pane);
            }
            state.scroll_focused_pane_viewport_down();
            MouseOutcome::handled(None)
        },
        MouseAction::ScrollUp => {
            clicks.clear();
            if action_menu_mouse {
                return MouseOutcome::handled(None);
            }
            if let Some(pane) = pane_at {
                state.focus_pane(pane);
            }
            state.scroll_focused_pane_viewport_up();
            MouseOutcome::handled(None)
        },
        MouseAction::LeftUp => MouseOutcome::handled(None),
        MouseAction::Other => {
            clicks.clear();
            MouseOutcome::ignored()
        },
    }
}

/// Handles a mouse event now, as `handle_mouse_event_at` says for the clock's time.
pub fn handle_mouse_event(
    state: &mut DashboardState,
    action: MouseAction,
    target: Option<MouseTarget>,
    pane_at: Option<FocusPane>,
    clicks: &mut MouseClickTracker,
) -> (outcome: MouseOutcome)
    ensures
        outcome.command is None,
        ignores_dashboard_mouse_spec(*old(state)) && !on_action_menu(target) ==> !outcome.handled
            && *final(state) == *old(state) && *final(clicks) == *old(clicks),
        !(ignores_dashboard_mouse_spec(*old(state)) && !on_action_menu(target)) ==> ({
            let elsewhere = old(state).composer.active && target != Some(MouseTarget::Composer);
            &&& elsewhere && action != MouseAction::LeftDown ==> !outcome.handled && *final(state)
                == *old(state) && *final(clicks) == *old(clicks)
            &&& elsewhere && action == MouseAction::LeftDown ==> outcome.handled
            &&& !(elsewhere && action != MouseAction::LeftDown) ==> exists|now_ms: u64|
                mouse_event_handled(
                    *old(state),
                    *old(clicks),
                    action,
                    target,
                    pane_at,
                    now_ms,
                    *final(state),
                    *final(clicks),
                    outcome,
                )
            &&& !elsewhere ==> (action == MouseAction::LeftDown ==> (outcome.handled <==> target
                is Some))
            &&& !elsewhere ==> (action == MouseAction::LeftUp ==> outcome.handled && *final(state)
                == *old(state))
            &&& !elsewhere ==> (action == MouseAction::Other ==> !outcome.handled && *final(state)
                == *old(state) && final(clicks).last_left_click is None)
            &&& !elsewhere && (action == MouseAction::ScrollDown || action == MouseAction::ScrollUp)
                ==> outcome.handled && final(clicks).last_left_click is None && (!on_action_menu(
                target) ==> (pane_at matches Some(p) ==> final(state).focus == p))
        }),
{
    let now_ms = now_millis();
    handle_mouse_event_at(state, action, target, pane_at, clicks, now_ms)
}

/// Handles a mouse event with no click remembered before it; says whether it was used.
pub fn handle_mouse(
    state: &mut DashboardState,
    action: MouseAction,
    target: Option<MouseTarget>,
    pane_at: Option<FocusPane>,
) -> (handled: bool)
    ensures
        ignores_dashboard_mouse_spec(*old(state)) && !on_action_menu(target) ==> !handled
            && *final(state) == *old(state),
        !(ignores_dashboard_mouse_spec(*old(state)) && !on_action_menu(target))
            && !old(state).composer.active && action == MouseAction::LeftDown ==> (handled
            <==> target is Some),
        !(ignores_dashboard_mouse_spec(*old(state)) && !on_action_menu(target))
            && !old(state).composer.active && action == MouseAction::Other ==> !handled
            && *final(state) == *old(state),
        !(ignores_dashboard_mouse_spec(*old(state)) && !on_action_menu(target)) && !(
        old(state).composer.active && target != Some(MouseTarget::Composer) && action
            != MouseAction::LeftDown) ==> exists|now_ms: u64, fin_clicks: MouseClickTracker, outcome: MouseOutcome|
            mouse_event_handled(
                *old(state),
                MouseClickTracker { last_left_click: None },
                action,
                target,
                pane_at,
                now_ms,
                *final(state),
                fin_clicks,
                outcome,
            ) && outcome.handled == handled,
{
    let mut clicks = MouseClickTracker::new();
    let outcome = handle_mouse_event(state, action, target, pane_at, &mut clicks);
    outcome.handled
}

} // verus!
