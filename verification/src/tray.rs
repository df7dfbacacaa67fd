//! Decisions behind the custom tray tooltip and the tray menu.
use vstd::prelude::*;
use crate::config::{AppConfig, FloatingBarConfig};
use crate::text::{chars_of, push_char, str_equal};

verus! {

/// How long a right click keeps the tooltip from showing, in milliseconds.
pub const RIGHT_CLICK_SUPPRESS_MS: u64 = 800;

/// `now + RIGHT_CLICK_SUPPRESS_MS` on the monotonic millisecond clock,
/// saturating at the end of the clock.
pub open spec fn suppress_deadline(now: u64) -> u64 {
    if now + RIGHT_CLICK_SUPPRESS_MS > u64::MAX {
        u64::MAX
    } else {
        (now + RIGHT_CLICK_SUPPRESS_MS) as u64
    }
}

/// What the tooltip window has to do.
#[derive(Debug, Clone, Copy, PartialEq, Eq, Structural)]
pub enum TooltipAction<B> {
    /// Show the tooltip next to the tray icon at these bounds.
    Show(B),
    /// Hide the tooltip.
    Hide,
}

/// What the tray remembers of its tooltip: where the tray icon was last
/// seen (`B` is its screen rectangle), whether the tooltip is shown, and
/// until which instant (monotonic milliseconds) it stays suppressed after a
/// right click.
#[derive(Debug, Clone, Copy)]
pub struct TooltipHoverState<B> {
    pub bounds: Option<B>,
    pub visible: bool,
    pub suppress_until: Option<u64>,
}

impl<B: Copy> TooltipHoverState<B> {
    /// Whether the tooltip is suppressed at `now`.
    pub open spec fn spec_suppressed(self, now: u64) -> bool {
        match self.suppress_until {
            Some(deadline) => now < deadline,
            None => false,
        }
    }

    /// The state after one tick of the cursor watchdog, and the action it
    /// asks for. `right_down` tells whether the right mouse button is held
    /// and `cursor_inside` whether the cursor lies within the remembered
    /// tray bounds.
    pub open spec fn spec_watchdog(self, right_down: bool, now: u64, cursor_inside: bool) -> (
        TooltipHoverState<B>,
        Option<TooltipAction<B>>,
    ) {
        if right_down {
            let s = TooltipHoverState { suppress_until: Some(suppress_deadline(now)), ..self };
            if self.visible {
                (TooltipHoverState { visible: false, ..s }, Some(TooltipAction::Hide))
            } else {
                (s, None)
            }
        } else if self.spec_suppressed(now) {
            if self.visible {
                (TooltipHoverState { visible: false, ..self }, Some(TooltipAction::Hide))
            } else {
                (self, None)
            }
        } else if self.visible && !cursor_inside {
            (TooltipHoverState { visible: false, ..self }, Some(TooltipAction::Hide))
        } else if !self.visible && cursor_inside && self.bounds is Some {
            (
                TooltipHoverState { visible: true, ..self },
                Some(TooltipAction::Show(self.bounds->Some_0)),
            )
        } else {
            (self, None)
        }
    }

    /// Nothing remembered: no bounds, hidden, not suppressed.
    pub fn new() -> (r: Self)
        ensures
            r.bounds is None,
            !r.visible,
            r.suppress_until is None,
    {
        TooltipHoverState { bounds: None, visible: false, suppress_until: None }
    }

    /// Whether a right click still suppresses the tooltip at `now`.
    pub fn is_suppressed(&self, now: u64) -> (r: bool)
        ensures
            r == self.spec_suppressed(now),
    {
        match self.suppress_until {
            Some(deadline) => now < deadline,
            None => false,
        }
    }

    /// Whether a hover over the tray icon may show the tooltip: not while
    /// the right button is held and not while suppressed.
    pub fn may_show(&self, right_down: bool, now: u64) -> (r: bool)
        ensures
            r == (!right_down && !self.spec_suppressed(now)),
    {
        !right_down && !self.is_suppressed(now)
    }

    /// Records that the tooltip was shown next to the tray icon at `bounds`.
    pub fn record_shown(&mut self, bounds: B)
        ensures
            *final(self) == (TooltipHoverState { bounds: Some(bounds), visible: true, ..*old(self) }),
    {
        self.bounds = Some(bounds);
        self.visible = true;
    }

    /// Records that the cursor left the tray icon and the tooltip was hidden.
    pub fn record_hidden(&mut self)
        ensures
            *final(self) == (TooltipHoverState { visible: false, ..*old(self) }),
    {
        self.visible = false;
    }

    /// Records a right click at `now`: the tooltip is hidden and stays
    /// suppressed for `RIGHT_CLICK_SUPPRESS_MS`.
    pub fn suppress(&mut self, now: u64)
        ensures
            *final(self) == (TooltipHoverState {
                visible: false,
                suppress_until: Some(suppress_deadline(now)),
                ..*old(self)
            }),
    {
        self.visible = false;
        self.suppress_until = Some(now.saturating_add(RIGHT_CLICK_SUPPRESS_MS));
    }

    /// One tick of the cursor watchdog (see `spec_watchdog`).
    pub fn watchdog_step(&mut self, right_down: bool, now: u64, cursor_inside: bool) -> (r: Option<
        TooltipAction<B>,
    >)
        ensures
            (*final(self), r) == old(self).spec_watchdog(right_down, now, cursor_inside),
    {
        if right_down {
            self.suppress_until = Some(now.saturating_add(RIGHT_CLICK_SUPPRESS_MS));
            if self.visible {
                self.visible = false;
                return Some(TooltipAction::Hide);
            }
            return None;
        }
        if self.is_suppressed(now) {
            if self.visible {
                self.visible = false;
                return Some(TooltipAction::Hide);
            }
            return None;
        }
        if self.visible && !cursor_inside {
            self.visible = false;
            Some(TooltipAction::Hide)
        } else if !self.visible && cursor_inside {
            match self.bounds {
                Some(bounds) => {
                    self.visible = true;
                    Some(TooltipAction::Show(bounds))
                },
                None => None,
            }
        } else {
            None
        }
    }
}

impl<B: Copy> Default for TooltipHoverState<B> {
    fn default() -> (r: Self)
        ensures
            r.bounds is None,
            !r.visible,
            r.suppress_until is None,
    {
        TooltipHoverState::new()
    }
}

/// A watchdog tick reports an action exactly when the tooltip's visibility
/// changes: `Hide` when it was shown and no longer is, `Show` with the
/// remembered bounds when it was hidden and now is shown.
pub proof fn lemma_watchdog_action_matches_visibility<B: Copy>(
    state: TooltipHoverState<B>,
    right_down: bool,
    now: u64,
    cursor_inside: bool,
)
    ensures
        ({
            let (next, action) = state.spec_watchdog(right_down, now, cursor_inside);
            &&& (action is None <==> next.visible == state.visible)
            &&& (action == Some(TooltipAction::<B>::Hide) <==> (state.visible && !next.visible))
            &&& (action matches Some(TooltipAction::Show(b)) ==> !state.visible && next.visible
                && state.bounds == Some(b))
            &&& next.bounds == state.bounds
        }),
{
}

/// After a watchdog tick the tooltip is shown only if the right button is
/// up, no suppression is running and the cursor is over the tray icon.
pub proof fn lemma_watchdog_shows_only_on_hover<B: Copy>(
    state: TooltipHoverState<B>,
    right_down: bool,
    now: u64,
    cursor_inside: bool,
)
    ensures
        state.spec_watchdog(right_down, now, cursor_inside).0.visible ==> !right_down
            && !state.spec_suppressed(now) && cursor_inside,
{
}

/// Holding the right button hides the tooltip and keeps it suppressed for
/// the next `RIGHT_CLICK_SUPPRESS_MS` milliseconds (up to the end of the
/// clock): no tick in that window shows it again.
pub proof fn lemma_right_click_suppresses<B: Copy>(
    state: TooltipHoverState<B>,
    now: u64,
    cursor_inside: bool,
    later: u64,
    later_right_down: bool,
    later_inside: bool,
)
    requires
        now <= later,
        later < suppress_deadline(now),
    ensures
        ({
            let (next, _) = state.spec_watchdog(true, now, cursor_inside);
            &&& !next.visible
            &&& next.spec_suppressed(later)
            &&& !next.spec_watchdog(later_right_down, later, later_inside).0.visible
        }),
{
}

/// The autostart state that the menu asks the system for: the opposite of
/// what the system reports, an unreadable state counting as off.
pub fn autostart_target(reported: Option<bool>) -> (r: bool)
    ensures
        r == match reported {
            Some(enabled) => !enabled,
            None => true,
        },
{
    match reported {
        Some(enabled) => !enabled,
        None => true,
    }
}

/// The configuration to persist after the system was asked to set
/// autostart to `target`: `config` with that setting when the system call
/// succeeded, and nothing when it failed, so that the setting never claims
/// what the system refused.
pub fn config_after_autostart(config: AppConfig, target: bool, applied: bool) -> (r: Option<AppConfig>)
    ensures
        applied ==> r == Some((AppConfig { autostart: target, ..config })),
        !applied ==> r is None,
{
    if applied {
        Some(AppConfig { autostart: target, ..config })
    } else {
        None
    }
}

/// The configuration to persist when the menu toggles the floating bar:
/// `config` with the bar's `enabled` flag flipped and nothing else changed.
pub fn config_with_floating_toggled(config: AppConfig) -> (r: AppConfig)
    ensures
        r == (AppConfig {
            floating_bar: (FloatingBarConfig {
                enabled: !config.floating_bar.enabled,
                ..config.floating_bar
            }),
            ..config
        }),
{
    AppConfig {
        floating_bar: FloatingBarConfig { enabled: !config.floating_bar.enabled, ..config.floating_bar },
        ..config
    }
}

/// Commands of the tray menu.
#[derive(Debug, Clone, Copy, PartialEq, Eq, Structural)]
pub enum MenuCommand {
    /// Open the settings window (`settings`).
    ShowSettings,
    /// Flip the autostart setting (`autostart`).
    ToggleAutostart,
    /// Flip the floating bar (`floating`).
    ToggleFloatingBar,
    /// Open the log folder (`logs`).
    OpenLogs,
    /// Quit the application (`quit`).
    Quit,
}

impl MenuCommand {
    /// The command a menu item id stands for.
    pub open spec fn spec_from_id(id: Seq<char>) -> Option<MenuCommand> {
        if id == "settings"@ {
            Some(MenuCommand::ShowSettings)
        } else if id == "autostart"@ {
            Some(MenuCommand::ToggleAutostart)
        } else if id == "floating"@ {
            Some(MenuCommand::ToggleFloatingBar)
        } else if id == "logs"@ {
            Some(MenuCommand::OpenLogs)
        } else if id == "quit"@ {
            Some(MenuCommand::Quit)
        } else {
            None
        }
    }

    /// The command of the menu item `id`, or `None` for an unknown id.
    pub fn from_id(id: &str) -> (r: Option<MenuCommand>)
        ensures
            r == MenuCommand::spec_from_id(id@),
    {
        if str_equal(id, "settings") {
            Some(MenuCommand::ShowSettings)
        } else if str_equal(id, "autostart") {
            Some(MenuCommand::ToggleAutostart)
        } else if str_equal(id, "floating") {
            Some(MenuCommand::ToggleFloatingBar)
        } else if str_equal(id, "logs") {
            Some(MenuCommand::OpenLogs)
        } else if str_equal(id, "quit") {
            Some(MenuCommand::Quit)
        } else {
            None
        }
    }
}

/// `value` cut to its first `max_chars` characters, followed by `…` when
/// anything was cut.
pub open spec fn spec_truncate(value: Seq<char>, max_chars: nat) -> Seq<char> {
    if value.len() > max_chars {
        value.take(max_chars as int).push('…')
    } else {
        value
    }
}

/// Shortens a status line for the menu bar title (see `spec_truncate`).
pub fn truncate(value: &str, max_chars: usize) -> (r: String)
    ensures
        r@ == spec_truncate(value@, max_chars as nat),
{
    let chars = chars_of(value);
    let mut result = String::new();
    let mut i: usize = 0;
    while i < chars.len() && i < max_chars
        invariant
            i <= chars.len(),
            i <= max_chars,
            chars@ == value@,
            result@ == chars@.take(i as int),
        decreases chars.len() - i,
    {
        push_char(&mut result, chars[i]);
        assert(chars@.take(i as int).push(chars@[i as int]) =~= chars@.take(i + 1));
        i = i + 1;
    }
    if chars.len() > max_chars {
        push_char(&mut result, '…');
    } else {
        assert(chars@.take(i as int) =~= chars@);
    }
    result
}

} // verus!
