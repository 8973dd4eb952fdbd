use interactivebackground::desktop_host::{
    auto_calm_due_after, child_frame, child_window_style, Attachment, DesktopHostState,
};
use interactivebackground::monitors::MonitorBounds;

#[test]
fn tracks_desired_and_confirmed_wallpaper_visibility_separately() {
    let mut state = DesktopHostState::default();
    assert!(!state.status(None).visible);
    assert!(!state.wallpaper_is_desired());

    state.request_wallpaper_visibility(true);
    assert!(state.wallpaper_is_desired());
    assert!(!state.status(None).visible);

    state.confirm_wallpaper_visible();
    assert!(state.status(None).visible);

    state.request_wallpaper_visibility(false);
    let closed = state.status(None);
    assert!(!closed.visible);
    assert!(!closed.closing);
    assert_eq!(closed.mode, "window");
    assert!(!state.wallpaper_is_desired());
}

#[test]
fn keeps_lifecycle_state_consistent_across_repeated_control_wallpaper_transitions() {
    let mut state = DesktopHostState::default();
    for _ in 0..20 {
        state.request_wallpaper_visibility(true);
        assert!(state.wallpaper_is_desired());
        assert!(!state.wallpaper_is_visible());

        state.confirm_wallpaper_visible();
        assert!(state.wallpaper_is_visible());

        state.request_wallpaper_visibility(false);
        assert!(!state.wallpaper_is_desired());
        assert!(!state.wallpaper_is_visible());
        assert_eq!(state.status(None).mode, "window");
    }
}

#[test]
fn exposes_the_native_close_transition_until_registry_cleanup_finishes() {
    let mut state = DesktopHostState::default();
    state.request_wallpaper_visibility(true);
    state.confirm_wallpaper_visible();

    state.begin_wallpaper_close();
    state.request_wallpaper_visibility(false);
    let closing = state.status(None);
    assert!(!closing.visible);
    assert!(closing.closing);

    state.finish_wallpaper_close();
    assert!(!state.status(None).closing);
}

fn sample_attachment() -> Attachment {
    Attachment { window: 11, worker: 22, original_parent: 0, original_style: 0x1600_0000 }
}

#[test]
fn reports_each_mode_of_a_visible_wallpaper() {
    let mut state = DesktopHostState::default();
    state.request_wallpaper_visibility(true);
    state.confirm_wallpaper_visible();
    assert_eq!(state.status(None).mode, "window");

    state.set_fallback_mode(true);
    assert_eq!(state.status(None).mode, "fallback");

    state.enter_interaction_mode(0);
    assert!(state.is_interaction_mode());
    assert_eq!(state.status(None).mode, "interaction");

    assert!(state.request_attach());
    state.complete_attach(sample_attachment());
    let status = state.status(Some("warning".to_string()));
    assert!(status.attached);
    assert_eq!(status.mode, "workerW");
    assert_eq!(status.warning, Some("warning".to_string()));
    assert!(!state.is_interaction_mode());
}

#[test]
fn attaches_only_once_and_detaches_the_saved_attachment() {
    let mut state = DesktopHostState::default();
    assert!(state.request_attach());
    state.complete_attach(sample_attachment());
    assert!(state.is_attached());
    assert!(!state.request_attach());

    assert_eq!(state.request_detach(), Some(sample_attachment()));
    state.complete_detach();
    assert!(!state.is_attached());
    assert_eq!(state.request_detach(), None);
}

#[test]
fn needs_recovery_only_while_the_workerw_layer_is_wanted() {
    let mut state = DesktopHostState::default();
    assert!(!state.recovery_needed(false));

    state.request_attach();
    assert!(state.recovery_needed(true));

    state.complete_attach(sample_attachment());
    assert!(!state.recovery_needed(true));
    assert!(state.recovery_needed(false));

    state.request_detach();
    assert!(!state.recovery_needed(false));
}

#[test]
fn hiding_the_wallpaper_clears_the_fallback_window() {
    let mut state = DesktopHostState::default();
    state.request_wallpaper_visibility(true);
    state.confirm_wallpaper_visible();
    state.set_fallback_mode(true);
    state.request_wallpaper_visibility(false);
    state.request_wallpaper_visibility(true);
    state.confirm_wallpaper_visible();
    assert_eq!(state.status(None).mode, "window");
}

#[test]
fn auto_calm_is_due_only_after_the_configured_idle_time() {
    let minute: u128 = 60 * 1_000_000_000;
    assert!(!auto_calm_due_after(0, true, Some(10 * minute)));
    assert!(!auto_calm_due_after(5, false, Some(10 * minute)));
    assert!(!auto_calm_due_after(5, true, None));
    assert!(!auto_calm_due_after(5, true, Some(5 * minute - 1)));
    assert!(auto_calm_due_after(5, true, Some(5 * minute)));
    assert!(auto_calm_due_after(1, true, Some(2 * minute)));
}

#[test]
fn auto_calm_follows_the_interaction_layer() {
    let minute: u128 = 60 * 1_000_000_000;
    let mut state = DesktopHostState::default();
    state.configure_auto_calm(Some(5));
    assert!(!state.auto_calm_due(100 * minute));

    state.enter_interaction_mode(10 * minute);
    assert!(!state.auto_calm_due(15 * minute - 1));
    assert!(state.auto_calm_due(15 * minute));

    state.record_interaction_activity(12 * minute);
    assert!(!state.auto_calm_due(15 * minute));
    assert!(!state.auto_calm_due(17 * minute - 1));
    assert!(state.auto_calm_due(17 * minute));
    assert!(!state.auto_calm_due(0));

    state.leave_interaction_mode();
    assert!(!state.is_interaction_mode());
    assert!(!state.auto_calm_due(100 * minute));
    state.record_interaction_activity(200 * minute);
    assert!(!state.auto_calm_due(300 * minute));

    state.configure_auto_calm(None);
    state.enter_interaction_mode(0);
    assert!(!state.auto_calm_due(100 * minute));
}

#[test]
fn refuses_to_show_while_a_close_is_being_cleaned_up() {
    let mut state = DesktopHostState::default();
    state.begin_show().unwrap();
    let pending = state.status(None);
    assert!(!pending.visible);
    let shown = state.conclude_show(Ok(pending)).unwrap();
    assert!(shown.visible);
    assert!(state.wallpaper_is_visible());

    state.begin_hide();
    assert!(state.wallpaper_is_closing());
    assert!(!state.wallpaper_is_desired());
    assert_eq!(state.begin_show().unwrap_err(), "Wallpaper kapanışı henüz tamamlanmadı.");
    assert!(!state.wallpaper_is_desired());

    state.finish_wallpaper_close();
    assert!(state.begin_show().is_ok());
    assert!(state.wallpaper_is_desired());
}

#[test]
fn a_failed_open_leaves_the_wallpaper_neither_wanted_nor_shown() {
    let mut state = DesktopHostState::default();
    state.begin_show().unwrap();
    assert!(state.wallpaper_is_desired());
    let failed = state.conclude_show(Err("Wallpaper penceresi bulunamadı.".to_string()));
    assert_eq!(failed.unwrap_err(), "Wallpaper penceresi bulunamadı.");
    assert!(!state.wallpaper_is_desired());
    assert!(!state.wallpaper_is_visible());
    assert!(!state.status(None).visible);
}

#[test]
fn entering_interaction_leaves_the_workerw_layer_behind() {
    let mut state = DesktopHostState::default();
    state.request_attach();
    state.complete_attach(sample_attachment());
    state.request_detach();
    state.complete_detach();
    state.enter_interaction_mode(7);
    assert!(state.is_interaction_mode());
    assert!(!state.is_attached());
    assert!(!state.recovery_needed(false));
    assert!(!state.auto_calm_due(7));
}

#[test]
fn places_the_wallpaper_inside_workerw() {
    let popup = 0x8000_0000_u32 as isize;
    let child = 0x4000_0000_isize;
    assert_eq!(child_window_style(popup | 0x00C0_0000, popup, child), child | 0x00C0_0000);
    let bounds = MonitorBounds { x: 1920, y: 0, width: 2560, height: 1440 };
    assert_eq!(child_frame(bounds, -1920, 0), Some((3840, 0, 2560, 1440)));
    let far = MonitorBounds { x: i32::MAX, y: 0, width: 10, height: 10 };
    assert_eq!(child_frame(far, -1, 0), None);
}
