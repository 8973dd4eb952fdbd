//! The life cycle of the wallpaper window: whether it is wanted, shown,
//! closing, attached to the desktop's WorkerW layer or raised for interaction,
//! and when the interaction layer falls back to the calm desktop layer.
//!
//! The native window operations are performed by the caller; this state
//! records what they achieved and decides what comes next. Times are readings
//! of a monotonic clock in nanoseconds, taken by the caller from an origin of
//! its choice.

use vstd::prelude::*;
use vstd::string::*;

verus! {

/// The native handles saved when the wallpaper window is placed under the
/// desktop's WorkerW window, so that the placement can be undone.
#[derive(Clone, Copy, Debug, PartialEq, Eq)]
pub struct Attachment {
    pub window: isize,
    pub worker: isize,
    pub original_parent: isize,
    pub original_style: isize,
}

/// The window style of the wallpaper once it is a child of WorkerW: the
/// popup style bits cleared and the child style bits set.
pub fn child_window_style(original_style: isize, popup_style: isize, child_style: isize) -> (r:
    isize)
    ensures
        r == (original_style & !popup_style) | child_style,
{
    (original_style & !popup_style) | child_style
}

/// Where and how large the wallpaper is drawn inside WorkerW: a child
/// window's position is relative to its parent's corner, so the monitor's
/// position is moved by the parent's; the size is the monitor's, as the
/// native call takes it. None when the position does not fit a coordinate.
pub fn child_frame(bounds: crate::monitors::MonitorBounds, parent_left: i32, parent_top: i32) -> (r:
    Option<(i32, i32, i32, i32)>)
    ensures
        match r {
            Some(frame) => {
                &&& frame.0 == bounds.x - parent_left
                &&& frame.1 == bounds.y - parent_top
                &&& frame.2 == bounds.width as i32
                &&& frame.3 == bounds.height as i32
            },
            None => !(i32::MIN <= bounds.x - parent_left <= i32::MAX) || !(i32::MIN <= bounds.y
                - parent_top <= i32::MAX),
        },
{
    let x = bounds.x as i64 - parent_left as i64;
    let y = bounds.y as i64 - parent_top as i64;
    if x < i32::MIN as i64 || x > i32::MAX as i64 || y < i32::MIN as i64 || y > i32::MAX as i64 {
        return None;
    }
    Some((x as i32, y as i32, bounds.width as i32, bounds.height as i32))
}

/// What the wallpaper host reports to the windows.
#[derive(Clone, Debug, PartialEq, Eq)]
pub struct DesktopHostStatus {
    pub attached: bool,
    pub visible: bool,
    pub closing: bool,
    pub mode: &'static str,
    pub warning: Option<String>,
}

/// The state of the wallpaper host.
pub struct DesktopHostState {
    attachment: Option<Attachment>,
    interaction_mode: bool,
    fallback_mode: bool,
    workerw_desired: bool,
    wallpaper_desired: bool,
    wallpaper_visible: bool,
    wallpaper_closing: bool,
    auto_calm_minutes: u32,
    last_interaction_activity: Option<u128>,
}

/// The abstract state of the wallpaper host.
pub struct HostView {
    pub attachment: Option<Attachment>,
    pub interaction_mode: bool,
    pub fallback_mode: bool,
    pub workerw_desired: bool,
    pub wallpaper_desired: bool,
    pub wallpaper_visible: bool,
    pub wallpaper_closing: bool,
    pub auto_calm_minutes: u32,
    pub last_interaction_activity: Option<u128>,
}

impl View for DesktopHostState {
    type V = HostView;

    closed spec fn view(&self) -> HostView {
        HostView {
            attachment: self.attachment,
            interaction_mode: self.interaction_mode,
            fallback_mode: self.fallback_mode,
            workerw_desired: self.workerw_desired,
            wallpaper_desired: self.wallpaper_desired,
            wallpaper_visible: self.wallpaper_visible,
            wallpaper_closing: self.wallpaper_closing,
            auto_calm_minutes: self.auto_calm_minutes,
            last_interaction_activity: self.last_interaction_activity,
        }
    }
}

/// The state after the wallpaper is asked to be shown or hidden: the wish is
/// recorded at once, but only hiding also clears what was shown.
pub open spec fn after_visibility_request(v: HostView, visible: bool) -> HostView {
    if visible {
        HostView { wallpaper_desired: true, ..v }
    } else {
        HostView { wallpaper_desired: false, wallpaper_visible: false, fallback_mode: false, ..v }
    }
}

/// The state after the window is confirmed to be on screen.
pub open spec fn after_visibility_confirmed(v: HostView) -> HostView {
    HostView { wallpaper_visible: true, wallpaper_closing: false, ..v }
}

/// The state after the native close begins.
pub open spec fn after_close_began(v: HostView) -> HostView {
    HostView { wallpaper_closing: true, ..v }
}

/// The state after the native close and its clean-up are done.
pub open spec fn after_close_finished(v: HostView) -> HostView {
    HostView { wallpaper_closing: false, ..v }
}

/// The state after the window is opened and then closed again.
pub open spec fn after_show_hide_cycle(v: HostView) -> HostView {
    after_visibility_request(after_visibility_confirmed(after_visibility_request(v, true)), false)
}

/// The window is never raised for interaction while it is attached to the
/// WorkerW layer: the two are different layers.
pub open spec fn attachment_excludes_interaction(v: HostView) -> bool {
    v.attachment is Some ==> !v.interaction_mode
}

/// The mode the status reports.
pub open spec fn host_mode_text(v: HostView) -> Seq<char> {
    if !v.wallpaper_visible {
        "window"@
    } else if v.attachment is Some {
        "workerW"@
    } else if v.interaction_mode {
        "interaction"@
    } else if v.fallback_mode {
        "fallback"@
    } else {
        "window"@
    }
}

/// The full duration, in nanoseconds, of an idle period of the given minutes.
pub open spec fn idle_limit_nanoseconds(minutes: u32) -> int {
    minutes as int * 60 * 1_000_000_000
}

/// The time passed since the last activity at clock reading `now`, none
/// without an activity; a reading before the activity counts as no time.
pub open spec fn idle_since(last_activity: Option<u128>, now: u128) -> Option<int> {
    match last_activity {
        Some(last) => Some(if now >= last { now - last } else { 0 }),
        None => None,
    }
}

/// Whether the interaction layer, idle for `idle_nanoseconds`, is due to
/// return to the calm layer.
pub open spec fn auto_calm_due_after_spec(
    auto_calm_minutes: u32,
    interaction_mode: bool,
    idle_nanoseconds: Option<int>,
) -> bool {
    auto_calm_minutes != 0 && interaction_mode && (idle_nanoseconds matches Some(idle) && idle
        >= idle_limit_nanoseconds(auto_calm_minutes))
}

/// The interaction layer is due to return to the calm layer once it has been
/// idle for the configured minutes.
pub fn auto_calm_due_after(
    auto_calm_minutes: u32,
    interaction_mode: bool,
    idle_nanoseconds: Option<u128>,
) -> (r: bool)
    ensures
        r == auto_calm_due_after_spec(
            auto_calm_minutes,
            interaction_mode,
            match idle_nanoseconds {
                Some(idle) => Some(idle as int),
                None => None,
            },
        ),
{
    if auto_calm_minutes == 0 || !interaction_mode {
        return false;
    }
    match idle_nanoseconds {
        Some(idle) => idle >= (auto_calm_minutes as u128) * 60 * 1_000_000_000,
        None => false,
    }
}

impl Default for DesktopHostState {
    fn default() -> (r: DesktopHostState)
        ensures
            r@ == (HostView {
                attachment: None,
                interaction_mode: false,
                fallback_mode: false,
                workerw_desired: false,
                wallpaper_desired: false,
                wallpaper_visible: false,
                wallpaper_closing: false,
                auto_calm_minutes: 0,
                last_interaction_activity: None,
            }),
            attachment_excludes_interaction(r@),
    {
        DesktopHostState {
            attachment: None,
            interaction_mode: false,
            fallback_mode: false,
            workerw_desired: false,
            wallpaper_desired: false,
            wallpaper_visible: false,
            wallpaper_closing: false,
            auto_calm_minutes: 0,
            last_interaction_activity: None,
        }
    }
}

impl DesktopHostState {
    /// Records that the wallpaper should live in the WorkerW layer, and tells
    /// whether the native attachment still has to be made.
    pub fn request_attach(&mut self) -> (needed: bool)
        ensures
            attachment_excludes_interaction(old(self)@) ==> attachment_excludes_interaction(final(self)@),
            final(self)@ == (HostView { workerw_desired: true, ..old(self)@ }),
            needed == old(self)@.attachment is None,
    {
        self.workerw_desired = true;
        self.attachment.is_none()
    }

    /// Records a native attachment that was just made: the window is now the
    /// calm wallpaper, neither raised for interaction nor a fallback window.
    pub fn complete_attach(&mut self, attachment: Attachment)
        ensures
            final(self)@ == (HostView {
                attachment: Some(attachment),
                interaction_mode: false,
                fallback_mode: false,
                ..old(self)@
            }),
            attachment_excludes_interaction(final(self)@),
    {
        self.interaction_mode = false;
        self.fallback_mode = false;
        self.attachment = Some(attachment);
    }

    /// Records that the wallpaper should leave the WorkerW layer, and hands
    /// back the attachment that still has to be undone, if any.
    pub fn request_detach(&mut self) -> (current: Option<Attachment>)
        ensures
            attachment_excludes_interaction(old(self)@) ==> attachment_excludes_interaction(final(self)@),
            final(self)@ == (HostView { workerw_desired: false, ..old(self)@ }),
            current == old(self)@.attachment,
    {
        self.workerw_desired = false;
        self.attachment
    }

    /// Records that the native attachment was undone.
    pub fn complete_detach(&mut self)
        ensures
            attachment_excludes_interaction(old(self)@) ==> attachment_excludes_interaction(final(self)@),
            final(self)@ == (HostView { attachment: None, ..old(self)@ }),
    {
        self.attachment = None;
    }

    pub fn is_attached(&self) -> (r: bool)
        ensures
            r == self@.attachment is Some,
    {
        self.attachment.is_some()
    }

    pub fn attachment(&self) -> (r: Option<Attachment>)
        ensures
            r == self@.attachment,
    {
        self.attachment
    }

    /// Whether the WorkerW layer is wanted but the attachment is gone: never
    /// made, or made but no longer valid. `attachment_is_valid` is the native
    /// check of the current attachment; it counts only when there is one.
    pub fn recovery_needed(&self, attachment_is_valid: bool) -> (r: bool)
        ensures
            r == (self@.workerw_desired && (self@.attachment is None || !attachment_is_valid)),
    {
        if !self.workerw_desired {
            return false;
        }
        match self.attachment {
            Some(_) => !attachment_is_valid,
            None => true,
        }
    }

    /// Records that the window, already taken out of the WorkerW layer, was
    /// raised for interaction at clock reading `now`: the WorkerW layer is no
    /// longer wanted, and the idle clock starts.
    pub fn enter_interaction_mode(&mut self, now: u128)
        requires
            old(self)@.attachment is None,
        ensures
            final(self)@ == (HostView {
                interaction_mode: true,
                fallback_mode: false,
                workerw_desired: false,
                last_interaction_activity: Some(now),
                ..old(self)@
            }),
            final(self)@.attachment is None,
            attachment_excludes_interaction(final(self)@),
    {
        self.workerw_desired = false;
        self.interaction_mode = true;
        self.fallback_mode = false;
        self.last_interaction_activity = Some(now);
    }

    /// Records that the window left the interaction layer, and stops the idle
    /// clock.
    pub fn leave_interaction_mode(&mut self)
        ensures
            attachment_excludes_interaction(old(self)@) ==> attachment_excludes_interaction(final(self)@),
            final(self)@ == (HostView {
                interaction_mode: false,
                last_interaction_activity: None,
                ..old(self)@
            }),
    {
        self.interaction_mode = false;
        self.last_interaction_activity = None;
    }

    pub fn is_interaction_mode(&self) -> (r: bool)
        ensures
            r == self@.interaction_mode,
    {
        self.interaction_mode
    }

    pub fn request_wallpaper_visibility(&mut self, visible: bool)
        ensures
            attachment_excludes_interaction(old(self)@) ==> attachment_excludes_interaction(final(self)@),
            final(self)@ == after_visibility_request(old(self)@, visible),
            final(self)@.wallpaper_desired == visible,
            !visible ==> !final(self)@.wallpaper_visible,
            visible ==> final(self)@.wallpaper_visible == old(self)@.wallpaper_visible,
    {
        self.wallpaper_desired = visible;
        if !visible {
            self.wallpaper_visible = false;
            self.fallback_mode = false;
        }
    }

    pub fn confirm_wallpaper_visible(&mut self)
        ensures
            attachment_excludes_interaction(old(self)@) ==> attachment_excludes_interaction(final(self)@),
            final(self)@ == after_visibility_confirmed(old(self)@),
    {
        self.wallpaper_visible = true;
        self.wallpaper_closing = false;
    }

    pub fn begin_wallpaper_close(&mut self)
        ensures
            attachment_excludes_interaction(old(self)@) ==> attachment_excludes_interaction(final(self)@),
            final(self)@ == after_close_began(old(self)@),
    {
        self.wallpaper_closing = true;
    }

    pub fn finish_wallpaper_close(&mut self)
        ensures
            attachment_excludes_interaction(old(self)@) ==> attachment_excludes_interaction(final(self)@),
            final(self)@ == after_close_finished(old(self)@),
    {
        self.wallpaper_closing = false;
    }

    pub fn wallpaper_is_closing(&self) -> (r: bool)
        ensures
            r == self@.wallpaper_closing,
    {
        self.wallpaper_closing
    }

    pub fn wallpaper_is_desired(&self) -> (r: bool)
        ensures
            r == self@.wallpaper_desired,
    {
        self.wallpaper_desired
    }

    pub fn wallpaper_is_visible(&self) -> (r: bool)
        ensures
            r == self@.wallpaper_visible,
    {
        self.wallpaper_visible
    }

    /// Sets the idle minutes after which the interaction layer returns to the
    /// calm layer; none turns the return off.
    pub fn configure_auto_calm(&mut self, minutes: Option<u16>)
        ensures
            attachment_excludes_interaction(old(self)@) ==> attachment_excludes_interaction(final(self)@),
            final(self)@ == (HostView {
                auto_calm_minutes: match minutes {
                    Some(value) => value as u32,
                    None => 0,
                },
                ..old(self)@
            }),
    {
        self.auto_calm_minutes = match minutes {
            Some(value) => value as u32,
            None => 0,
        };
    }

    /// Restarts the idle clock at clock reading `now`, while the window is
    /// raised for interaction.
    pub fn record_interaction_activity(&mut self, now: u128)
        ensures
            attachment_excludes_interaction(old(self)@) ==> attachment_excludes_interaction(final(self)@),
            !old(self)@.interaction_mode ==> final(self)@ == old(self)@,
            old(self)@.interaction_mode ==> final(self)@ == (HostView {
                last_interaction_activity: Some(now),
                ..old(self)@
            }),
    {
        if self.interaction_mode {
            self.last_interaction_activity = Some(now);
        }
    }

    /// Whether the interaction layer has been idle long enough, at clock
    /// reading `now`, to return to the calm layer: the idle time runs from the
    /// last recorded activity, and is zero for a reading before it, as
    /// `Instant::elapsed` gives.
    pub fn auto_calm_due(&self, now: u128) -> (r: bool)
        ensures
            r == auto_calm_due_after_spec(
                self@.auto_calm_minutes,
                self@.interaction_mode,
                idle_since(self@.last_interaction_activity, now),
            ),
    {
        let idle = match self.last_interaction_activity {
            Some(last) => Some(now.saturating_sub(last)),
            None => None,
        };
        auto_calm_due_after(self.auto_calm_minutes, self.interaction_mode, idle)
    }

    /// Records whether the window is shown as an ordinary bottom-most window
    /// because the WorkerW layer could not be used.
    pub fn set_fallback_mode(&mut self, active: bool)
        ensures
            attachment_excludes_interaction(old(self)@) ==> attachment_excludes_interaction(final(self)@),
            final(self)@ == (HostView { fallback_mode: active, ..old(self)@ }),
    {
        self.fallback_mode = active;
    }

    /// Starts showing the wallpaper: refused while a close is still being
    /// cleaned up, otherwise the wish to show it is recorded.
    pub fn begin_show(&mut self) -> (r: Result<(), String>)
        ensures
            attachment_excludes_interaction(old(self)@) ==> attachment_excludes_interaction(final(self)@),
            old(self)@.wallpaper_closing ==> final(self)@ == old(self)@,
            old(self)@.wallpaper_closing ==> (r matches Err(message)
                && message@ == "Wallpaper kapanışı henüz tamamlanmadı."@),
            !old(self)@.wallpaper_closing ==> r is Ok && final(self)@ == after_visibility_request(
                old(self)@,
                true,
            ),
    {
        if self.wallpaper_closing {
            return Err(String::from_str("Wallpaper kapanışı henüz tamamlanmadı."));
        }
        self.request_wallpaper_visibility(true);
        Ok(())
    }

    /// Ends an attempt to show the wallpaper with the outcome of placing the
    /// window: on success the window is confirmed on screen and the status
    /// taken while it was being placed is reported as visible; on failure the
    /// wallpaper is no longer wanted and the error is handed back.
    pub fn conclude_show(&mut self, placed: Result<DesktopHostStatus, String>) -> (r: Result<
        DesktopHostStatus,
        String,
    >)
        ensures
            attachment_excludes_interaction(old(self)@) ==> attachment_excludes_interaction(
                final(self)@,
            ),
            match placed {
                Ok(pending) => {
                    &&& final(self)@ == after_visibility_confirmed(old(self)@)
                    &&& r == Ok::<DesktopHostStatus, String>(
                        DesktopHostStatus { visible: true, ..pending },
                    )
                },
                Err(error) => {
                    &&& final(self)@ == after_visibility_request(old(self)@, false)
                    &&& r == Err::<DesktopHostStatus, String>(error)
                },
            },
            r is Err ==> !final(self)@.wallpaper_desired && !final(self)@.wallpaper_visible,
    {
        match placed {
            Ok(pending) => {
                self.confirm_wallpaper_visible();
                Ok(DesktopHostStatus { visible: true, ..pending })
            },
            Err(error) => {
                self.request_wallpaper_visibility(false);
                Err(error)
            },
        }
    }

    /// Starts hiding the wallpaper: the close is reported as under way and
    /// the wallpaper is no longer wanted.
    pub fn begin_hide(&mut self)
        ensures
            attachment_excludes_interaction(old(self)@) ==> attachment_excludes_interaction(final(self)@),
            final(self)@ == after_visibility_request(after_close_began(old(self)@), false),
            final(self)@.wallpaper_closing,
            !final(self)@.wallpaper_visible,
    {
        self.begin_wallpaper_close();
        self.request_wallpaper_visibility(false);
    }

    pub fn status(&self, warning: Option<String>) -> (r: DesktopHostStatus)
        ensures
            r.attached == self@.attachment is Some,
            r.visible == self@.wallpaper_visible,
            r.closing == self@.wallpaper_closing,
            r.mode@ == host_mode_text(self@),
            !self@.wallpaper_visible ==> r.mode@ == "window"@,
            r.warning == warning,
    {
        let attached = self.attachment.is_some();
        let visible = self.wallpaper_visible;
        let interaction = self.interaction_mode;
        let fallback = self.fallback_mode;
        DesktopHostStatus {
            attached,
            visible,
            closing: self.wallpaper_closing,
            mode: if !visible {
                "window"
            } else if attached {
                "workerW"
            } else if interaction {
                "interaction"
            } else if fallback {
                "fallback"
            } else {
                "window"
            },
            warning,
        }
    }
}

/// The interaction layer is due back on the calm layer exactly when it is in
/// interaction mode, a number of minutes is set, and it has been idle for at
/// least that many minutes of sixty thousand million nanoseconds each; with
/// no recorded activity it is never due.
pub proof fn lemma_auto_calm_threshold(minutes: u32, interaction_mode: bool, idle: int)
    ensures
        auto_calm_due_after_spec(minutes, interaction_mode, Some(idle)) <==> (interaction_mode
            && minutes > 0 && idle >= minutes * 60_000_000_000),
        !auto_calm_due_after_spec(minutes, interaction_mode, None),
{
}

/// Opening and closing the wallpaper leaves it neither wanted nor shown nor
/// closing nor a fallback window, and every further open-close cycle leaves the
/// state exactly as the first one did.
pub proof fn lemma_show_hide_cycle_is_repeatable(v: HostView)
    ensures
        !after_show_hide_cycle(v).wallpaper_desired,
        !after_show_hide_cycle(v).wallpaper_visible,
        !after_show_hide_cycle(v).wallpaper_closing,
        !after_show_hide_cycle(v).fallback_mode,
        host_mode_text(after_show_hide_cycle(v)) == "window"@,
        after_show_hide_cycle(after_show_hide_cycle(v)) == after_show_hide_cycle(v),
{
}

/// Asking for the wallpaper records the wish without claiming that it is on
/// screen; only the confirmation shows it.
pub proof fn lemma_visibility_is_confirmed_separately(v: HostView)
    requires
        !v.wallpaper_visible,
    ensures
        after_visibility_request(v, true).wallpaper_desired,
        !after_visibility_request(v, true).wallpaper_visible,
        after_visibility_confirmed(after_visibility_request(v, true)).wallpaper_visible,
{
}

/// A close that has begun is reported until its clean-up finishes, even after
/// the wallpaper is no longer wanted.
pub proof fn lemma_close_is_reported_until_finished(v: HostView)
    ensures
        after_visibility_request(after_close_began(v), false).wallpaper_closing,
        !after_visibility_request(after_close_began(v), false).wallpaper_visible,
        !after_close_finished(after_visibility_request(after_close_began(v), false)).wallpaper_closing,
{
}

/// Opening the wallpaper from state `v`, with `w` the state once the window
/// has been placed (placing it touches neither the wish to show it, nor whether
/// it is shown, nor whether a close is under way): the open is not refused, a
/// failed one leaves the wallpaper neither wanted nor shown, a successful one
/// confirms it on screen, and placing alone never shows it. (A refused open,
/// while a close is under way, leaves the state as it was: see `begin_show`.)
pub proof fn lemma_failed_open_never_confirms_visibility(v: HostView, w: HostView)
    requires
        w.wallpaper_desired == after_visibility_request(v, true).wallpaper_desired,
        w.wallpaper_visible == after_visibility_request(v, true).wallpaper_visible,
        w.wallpaper_closing == after_visibility_request(v, true).wallpaper_closing,
    ensures
        !v.wallpaper_closing ==> !after_visibility_request(w, false).wallpaper_desired
            && !after_visibility_request(w, false).wallpaper_visible,
        !v.wallpaper_closing ==> after_visibility_confirmed(w).wallpaper_visible
            && after_visibility_confirmed(w).wallpaper_desired
            && !after_visibility_confirmed(w).wallpaper_closing,
        !v.wallpaper_visible ==> !w.wallpaper_visible,
{
}

/// Every step of the life cycle keeps an attached window out of the
/// interaction layer, and the initial state starts that way.
pub proof fn lemma_visibility_steps_keep_layers_apart(v: HostView, visible: bool)
    requires
        attachment_excludes_interaction(v),
    ensures
        attachment_excludes_interaction(after_visibility_request(v, visible)),
        attachment_excludes_interaction(after_visibility_confirmed(v)),
        attachment_excludes_interaction(after_close_began(v)),
        attachment_excludes_interaction(after_close_finished(v)),
{
}

/// A shown wallpaper that is attached to the WorkerW layer reports that mode,
/// whatever else is recorded.
pub proof fn lemma_attached_wallpaper_reports_workerw(v: HostView, attachment: Attachment)
    ensures
        host_mode_text(
            after_visibility_confirmed(
                HostView {
                    attachment: Some(attachment),
                    interaction_mode: false,
                    fallback_mode: false,
                    ..v
                },
            ),
        ) == "workerW"@,
{
}

} // verus!
