use cosmic_osd::components::app::{
    toggle_touchpad, App, Args, Command, Confirmation, Details, DisplayMode, KeyboardBacklightUpdate, Msg,
    OsdTask, Perform, Subscriptions, Window, COUNTDOWN_LENGTH,
};
use cosmic_osd::components::osd_indicator;
use cosmic_osd::components::osd_indicator::{Anchor, Params, SurfaceSettings, TouchpadOverride};
use cosmic_osd::components::polkit_dialog;
use cosmic_osd::components::polkit_dialog::{Denial, Verdict};
use cosmic_osd::subscriptions::polkit_agent_helper::{AgentHelper, Event as HelperEvent, Spawned};
use cosmic_osd::subscriptions::{dbus, polkit_agent, pulse, settings_daemon};

fn app() -> App {
    App::init(true, false, 0)
}

fn bottom(id: u64) -> SurfaceSettings {
    SurfaceSettings { id, anchor: Anchor::Bottom, exclusive_zone: 0, margin_top: 0, timeout_secs: 3 }
}

fn top(id: u64) -> SurfaceSettings {
    SurfaceSettings { id, anchor: Anchor::Top, exclusive_zone: -1, margin_top: 48, timeout_secs: 1 }
}

fn params(cookie: &str) -> polkit_dialog::Params {
    polkit_dialog::Params {
        pw_name: "alice".to_string(),
        action_id: "a".to_string(),
        message: "m".to_string(),
        icon_name: None,
        details: Vec::new(),
        cookie: cookie.to_string(),
    }
}

#[test]
fn first_airplane_state_is_silent_and_changes_show() {
    let mut app = app();
    assert_eq!(app.update(Msg::AirplaneMode(false), 0), Vec::new());
    assert_eq!(app.update(Msg::AirplaneMode(false), 0), Vec::new());
    assert_eq!(
        app.update(Msg::AirplaneMode(true), 0),
        vec![Command::ClearOverlap, Command::GetLayerSurface(bottom(1))]
    );
    assert_eq!(app.osd.indicator.unwrap().params, Params::AirplaneMode(true));
    assert_eq!(app.update(Msg::AirplaneMode(false), 0), vec![Command::RestartTimer(1, 3)]);
    assert_eq!(app.osd.indicator.unwrap().params, Params::AirplaneMode(false));
    assert_eq!(app.osd.indicator.unwrap().id, 1);
}

#[test]
fn indicator_goes_when_its_timer_runs_out() {
    let mut app = app();
    app.update(Msg::AirplaneMode(false), 0);
    app.update(Msg::AirplaneMode(true), 0);
    assert_eq!(app.update(Msg::OsdIndicator(osd_indicator::Msg::Ignore), 0), Vec::new());
    assert!(app.osd.indicator.is_some());
    assert_eq!(
        app.update(Msg::OsdIndicator(osd_indicator::Msg::Close), 0),
        vec![Command::DestroyLayerSurface(1)]
    );
    assert!(app.osd.indicator.is_none());
    assert_eq!(app.update(Msg::OsdIndicator(osd_indicator::Msg::Close), 0), Vec::new());
    assert_eq!(
        app.update(Msg::AirplaneMode(false), 0),
        vec![Command::ClearOverlap, Command::GetLayerSurface(bottom(2))]
    );
}

#[test]
fn coarse_displays_show_rungs_and_fine_ones_exact_levels() {
    let mut app = app();
    let level = |l| Msg::SettingsDaemon(settings_daemon::Event::DisplayBrightness(l));
    assert_eq!(app.update(level(5), 0), Vec::new());
    assert_eq!(app.update(level(6), 0), Vec::new());
    app.update(Msg::SettingsDaemon(settings_daemon::Event::MaxDisplayBrightness(19)), 0);
    assert_eq!(app.update(level(6), 0), Vec::new());
    assert_eq!(app.update(level(7), 0).len(), 2);
    assert_eq!(app.osd.indicator.unwrap().params, Params::DisplayBrightness(8));
    app.update(Msg::SettingsDaemon(settings_daemon::Event::MaxDisplayBrightness(255)), 0);
    assert_eq!(app.update(level(128), 0), vec![Command::RestartTimer(1, 3)]);
    assert_eq!(app.osd.indicator.unwrap().params, Params::DisplayBrightnessExact(128, 255));
    app.update(Msg::SettingsDaemon(settings_daemon::Event::MaxDisplayBrightness(20)), 0);
    app.update(level(i32::MAX), 0);
    assert_eq!(app.osd.indicator.unwrap().params, Params::DisplayBrightness(i32::MAX));
}

#[test]
fn keyboard_brightness_needs_its_maximum() {
    let mut app = app();
    let level = |l| Msg::KeyboardBacklight(KeyboardBacklightUpdate::Brightness(l));
    assert_eq!(app.update(level(1), 0), Vec::new());
    assert_eq!(app.update(level(2), 0), Vec::new());
    app.update(Msg::KeyboardBacklight(KeyboardBacklightUpdate::MaxBrightness(3)), 0);
    assert_eq!(app.update(level(3), 0).len(), 2);
    assert_eq!(app.osd.indicator.unwrap().params, Params::KeyboardBrightness(3, 3));
    assert_eq!(
        app.update(Msg::SettingsDaemon(settings_daemon::Event::KeyboardBrightness(0)), 0),
        vec![Command::RestartTimer(1, 3)]
    );
    assert_eq!(app.osd.indicator.unwrap().params, Params::KeyboardBrightness(0, 3));
}

#[test]
fn volume_sound_is_throttled() {
    let mut app = app();
    assert_eq!(app.update(Msg::Pulse(pulse::Event::SinkVolume(10)), 100), Vec::new());
    assert_eq!(app.update(Msg::Pulse(pulse::Event::SinkVolume(10)), 125), Vec::new());
    assert_eq!(
        app.update(Msg::Pulse(pulse::Event::SinkVolume(10)), 126),
        vec![Command::PlayVolumeSound]
    );
    assert_eq!(app.osd.sink_last_playback, 126);
    assert_eq!(app.update(Msg::Pulse(pulse::Event::SinkVolume(11)), 200), Vec::new());
    assert_eq!(app.update(Msg::Pulse(pulse::Event::SinkMute(false)), 200), Vec::new());
    assert_eq!(
        app.update(Msg::Pulse(pulse::Event::SinkVolume(12)), 252),
        vec![
            Command::PlayVolumeSound,
            Command::ClearOverlap,
            Command::GetLayerSurface(bottom(1))
        ]
    );
    assert_eq!(app.osd.indicator.unwrap().params, Params::SinkVolume(12, false));
    assert_eq!(
        app.update(Msg::Pulse(pulse::Event::SinkMute(true)), 253),
        vec![Command::RestartTimer(1, 3)]
    );
    assert_eq!(app.osd.indicator.unwrap().params, Params::SinkVolume(12, true));
}

#[test]
fn source_volume_and_mute() {
    let mut app = app();
    app.update(Msg::Pulse(pulse::Event::SourceVolume(10)), 0);
    app.update(Msg::Pulse(pulse::Event::SourceMute(false)), 0);
    assert_eq!(app.update(Msg::Pulse(pulse::Event::SourceVolume(10)), 0), Vec::new());
    assert_eq!(app.update(Msg::Pulse(pulse::Event::SourceVolume(20)), 0).len(), 2);
    assert_eq!(app.osd.indicator.unwrap().params, Params::SourceVolume(20, false));
    assert_eq!(
        app.update(Msg::Pulse(pulse::Event::SourceMute(true)), 0),
        vec![Command::RestartTimer(1, 3)]
    );
    assert_eq!(app.osd.indicator.unwrap().params, Params::SourceVolume(20, true));
}

#[test]
fn task_waits_sixty_ticks_before_it_goes_ahead() {
    let mut app = app();
    assert_eq!(COUNTDOWN_LENGTH, 60);
    assert_eq!(app.update(Msg::Action(OsdTask::LogOut), 0), vec![Command::GetDialogSurface(1)]);
    assert_eq!(app.view_window(1), Window::Confirmation);
    for _ in 0..59 {
        assert_eq!(app.update(Msg::Countdown, 0), Vec::new());
    }
    assert_eq!(app.osd.action_to_confirm, Some((1, OsdTask::LogOut, 1)));
    assert_eq!(
        app.update(Msg::Countdown, 0),
        vec![Command::DestroyLayerSurface(1), Command::Perform(OsdTask::LogOut)]
    );
    assert_eq!(app.osd.action_to_confirm, None);
    assert_eq!(app.update(Msg::Countdown, 0), Vec::new());
}

#[test]
fn confirm_and_cancel() {
    let mut app = app();
    app.update(Msg::Action(OsdTask::Shutdown), 0);
    assert_eq!(
        app.update(Msg::Confirm, 0),
        vec![Command::DestroyLayerSurface(1), Command::Perform(OsdTask::Shutdown)]
    );
    assert_eq!(app.update(Msg::Confirm, 0), Vec::new());
    app.update(Msg::Action(OsdTask::EnterBios), 0);
    assert_eq!(app.update(Msg::Cancel, 0), vec![Command::DestroyLayerSurface(2)]);
    assert_eq!(app.update(Msg::Cancel, 0), Vec::new());
    assert_eq!(app.osd.action_to_confirm, None);
}

#[test]
fn restart_goes_ahead_while_shutdown_waits() {
    let mut app = app();
    app.update(Msg::Action(OsdTask::Shutdown), 0);
    assert_eq!(
        app.update(Msg::Action(OsdTask::Restart), 0),
        vec![Command::Perform(OsdTask::Restart)]
    );
    assert_eq!(app.osd.action_to_confirm, Some((1, OsdTask::Shutdown, 60)));
    let mut app = App::init(true, false, 0);
    app.update(Msg::Action(OsdTask::LogOut), 0);
    assert_eq!(app.update(Msg::Action(OsdTask::Restart), 0), vec![Command::GetDialogSurface(2)]);
    assert_eq!(app.osd.action_to_confirm, Some((2, OsdTask::Restart, 60)));
}

fn headphones(selected: bool) -> OsdTask {
    OsdTask::ConfirmHeadphones {
        card_name: "card".to_string(),
        headphone_profile: "hp".to_string(),
        headset_profile: "hs".to_string(),
        headset_port_name: "port".to_string(),
        selected_headset: selected,
    }
}

#[test]
fn headset_choice_and_sound_settings() {
    let mut app = app();
    assert_eq!(app.update(Msg::SoundSettings, 0), Vec::new());
    app.update(Msg::Headphones(true), 0);
    assert_eq!(app.osd.action_to_confirm, None);
    app.dbus_activation(Details::ActivateAction(Some(headphones(false))));
    app.update(Msg::Headphones(true), 0);
    assert_eq!(app.osd.action_to_confirm, Some((1, headphones(true), 60)));
    assert_eq!(app.update(Msg::SoundSettings, 0), vec![Command::RequestToken(1)]);
    assert_eq!(
        app.update(Msg::ActivationToken(Some("tok".to_string())), 0),
        vec![Command::SpawnSoundSettings(Some("tok".to_string()))]
    );
    assert_eq!(
        app.update(Msg::Confirm, 0),
        vec![Command::DestroyLayerSurface(1), Command::Perform(headphones(true))]
    );
    let mut app = App::init(true, false, 0);
    app.update(Msg::Action(OsdTask::Shutdown), 0);
    app.update(Msg::Headphones(true), 0);
    assert_eq!(app.osd.action_to_confirm, Some((1, OsdTask::Shutdown, 60)));
}

#[test]
fn activation_replaces_the_waiting_task() {
    let mut app = app();
    assert_eq!(app.dbus_activation(Details::Activate), Vec::new());
    assert_eq!(app.dbus_activation(Details::Open), Vec::new());
    assert_eq!(app.dbus_activation(Details::ActivateAction(None)), Vec::new());
    assert_eq!(
        app.dbus_activation(Details::ActivateAction(Some(OsdTask::Shutdown))),
        vec![Command::GetDialogSurface(1)]
    );
    for _ in 0..10 {
        app.update(Msg::Countdown, 0);
    }
    assert_eq!(app.osd.action_to_confirm, Some((1, OsdTask::Shutdown, 50)));
    assert_eq!(app.dbus_activation(Details::ActivateAction(Some(OsdTask::Restart))), Vec::new());
    assert_eq!(app.osd.action_to_confirm, Some((1, OsdTask::Restart, 60)));
    assert_eq!(
        app.dbus_activation(Details::ActivateAction(Some(OsdTask::Touchpad))),
        vec![Command::ToggleTouchpad]
    );
    assert_eq!(
        app.dbus_activation(Details::ActivateAction(Some(OsdTask::Display))),
        vec![Command::ToggleDisplays]
    );
    assert_eq!(
        app.dbus_activation(Details::ActivateAction(Some(OsdTask::IdentifyDisplays))),
        vec![Command::IdentifyDisplays]
    );
    assert_eq!(
        app.dbus_activation(Details::ActivateAction(Some(OsdTask::DismissDisplayIdentifiers))),
        Vec::new()
    );
    assert!(app.identifiers.identifiers_dismissed);
}

#[test]
fn toggles_show_a_fresh_indicator() {
    let mut app = app();
    assert_eq!(app.update(Msg::TouchpadEnabled(None), 0), Vec::new());
    assert_eq!(app.update(Msg::Display(None), 0), Vec::new());
    assert_eq!(
        app.update(Msg::TouchpadEnabled(Some(TouchpadOverride::ForceDisable)), 0),
        vec![Command::GetLayerSurface(bottom(1))]
    );
    assert_eq!(
        app.update(Msg::Display(Some(DisplayMode::External)), 0),
        vec![Command::GetLayerSurface(bottom(2))]
    );
    assert_eq!(app.osd.indicator.unwrap().params, Params::DisplayToggle(DisplayMode::External));
    assert_eq!(app.view_window(2), Window::Indicator);
    assert_eq!(app.view_window(1), Window::Empty);
    assert_eq!(toggle_touchpad(TouchpadOverride::Unset), TouchpadOverride::ForceDisable);
    assert_eq!(toggle_touchpad(TouchpadOverride::ForceDisable), TouchpadOverride::Unset);
}

fn displays(list: &[(&str, u32)]) -> Vec<(String, u32)> {
    list.iter().map(|(n, k)| (n.to_string(), *k)).collect()
}

#[test]
fn display_numbers_follow_the_displays() {
    let mut app = app();
    app.update(Msg::OutputInfo(77, "DP-1".to_string()), 0);
    assert_eq!(app.update(Msg::CreateDisplayIdentifiers(Vec::new()), 0), Vec::new());
    assert_eq!(
        app.update(Msg::CreateDisplayIdentifiers(displays(&[("DP-1", 1), ("eDP-1", 2)])), 0),
        vec![
            Command::GetIdentifierSurface(top(1), Some(77)),
            Command::GetIdentifierSurface(top(2), None)
        ]
    );
    assert_eq!(app.view_window(1), Window::DisplayIdentifier);
    assert_eq!(app.identifiers.shown.len(), 2);
    assert_eq!(app.identifiers.shown[1].display, "eDP-1");
    assert_eq!(app.identifiers.shown[1].state.params, Params::DisplayNumber(2));
    assert_eq!(
        app.update(
            Msg::CreateDisplayIdentifiers(displays(&[("DP-1", 1), ("DP-2", 2), ("eDP-1", 3)])),
            0
        ),
        vec![
            Command::RestartTimer(1, 1),
            Command::GetIdentifierSurface(top(3), None),
            Command::GetIdentifierSurface(top(4), None),
            Command::DestroyLayerSurface(2)
        ]
    );
    assert_eq!(app.identifiers.shown.len(), 3);
    assert_eq!(
        app.update(Msg::CreateDisplayIdentifiers(displays(&[("DP-2", 1), ("eDP-1", 3)])), 0),
        vec![
            Command::GetIdentifierSurface(top(5), None),
            Command::RestartTimer(4, 1),
            Command::DestroyLayerSurface(1),
            Command::DestroyLayerSurface(3)
        ]
    );
    assert_eq!(app.update(Msg::ResetDisplayIdentifierTimer(4), 0), vec![Command::RestartTimer(4, 1)]);
    assert_eq!(app.update(Msg::ResetDisplayIdentifierTimer(99), 0), Vec::new());
    assert_eq!(
        app.update(Msg::DisplayIdentifierSurface(4, osd_indicator::Msg::Ignore), 0),
        Vec::new()
    );
    assert_eq!(
        app.update(Msg::DisplayIdentifierSurface(4, osd_indicator::Msg::Close), 0),
        vec![Command::DestroyLayerSurface(4)]
    );
    assert_eq!(app.identifiers.shown.len(), 1);
    assert_eq!(app.view_window(4), Window::Empty);
}

#[test]
fn dismissed_numbers_stay_away_until_asked_for_again() {
    let mut app = app();
    app.update(Msg::CreateDisplayIdentifiers(displays(&[("A", 1), ("B", 2)])), 0);
    assert_eq!(
        app.update(Msg::DismissDisplayIdentifiers, 0),
        vec![Command::DestroyLayerSurface(1), Command::DestroyLayerSurface(2)]
    );
    assert!(app.identifiers.identifiers_dismissed);
    assert_eq!(
        app.update(Msg::CreateDisplayIdentifiers(displays(&[("A", 1), ("B", 2)])), 0),
        Vec::new()
    );
    assert_eq!(
        app.update(Msg::Action(OsdTask::IdentifyDisplays), 0),
        vec![Command::IdentifyDisplays]
    );
    assert!(!app.identifiers.identifiers_dismissed);
    assert_eq!(app.osd.action_to_confirm, None);
    assert_eq!(
        app.update(Msg::CreateDisplayIdentifiers(displays(&[("A", 1), ("B", 2)])), 0).len(),
        2
    );
    assert_eq!(app.update(Msg::Action(OsdTask::DismissDisplayIdentifiers), 0).len(), 2);
    assert!(app.identifiers.shown.is_empty());
}

#[test]
fn removed_output_asks_for_new_numbers() {
    let mut app = app();
    app.update(Msg::OutputInfo(1, "A".to_string()), 0);
    app.update(Msg::OutputInfo(2, "B".to_string()), 0);
    app.update(Msg::OutputInfo(3, "A".to_string()), 0);
    assert_eq!(
        app.identifiers.wayland_outputs,
        vec![("A".to_string(), 3), ("B".to_string(), 2)]
    );
    assert_eq!(app.update(Msg::OutputRemoved(1), 0), Vec::new());
    app.update(Msg::DismissDisplayIdentifiers, 0);
    assert_eq!(app.update(Msg::OutputRemoved(3), 0), vec![Command::IdentifyDisplays]);
    assert!(!app.identifiers.identifiers_dismissed);
    assert_eq!(app.identifiers.wayland_outputs, vec![("B".to_string(), 2)]);
}

#[test]
fn connections_enable_their_listeners() {
    let mut app = app();
    assert_eq!(
        app.subscription(),
        Subscriptions { polkit_agent: false, settings_daemon: false, countdown: false, helpers: 0 }
    );
    app.update(Msg::DBus(dbus::Event::Error(dbus::Stage::SessionConnection)), 0);
    assert!(!app.connection);
    app.update(Msg::DBus(dbus::Event::Connection), 0);
    app.update(Msg::DBus(dbus::Event::SystemConnection), 0);
    app.update(Msg::Action(OsdTask::LogOut), 0);
    app.update(Msg::PolkitAgent(polkit_agent::Event::BeginSession(params("c1"))), 0);
    assert_eq!(
        app.subscription(),
        Subscriptions { polkit_agent: true, settings_daemon: true, countdown: true, helpers: 1 }
    );
}

#[test]
fn dialogs_through_the_daemon() {
    let mut app = app();
    assert_eq!(
        app.update(Msg::PolkitAgent(polkit_agent::Event::BeginSession(params("c1"))), 0),
        vec![Command::StartHelper(1)]
    );
    assert_eq!(app.view_window(1), Window::Empty);
    assert_eq!(
        app.update(Msg::PolkitAgent(polkit_agent::Event::BeginSession(params("c1"))), 0),
        vec![Command::Reject("c1".to_string(), Denial::DuplicateCookie)]
    );
    assert_eq!(
        app.update(Msg::PolkitAgent(polkit_agent::Event::BeginSession(params("c2"))), 0),
        vec![Command::StartHelper(2)]
    );
    let agent = |e| polkit_dialog::Msg::Agent(e);
    assert_eq!(
        app.update(Msg::PolkitDialog(1, agent(HelperEvent::Responder)), 0),
        vec![Command::GetDialogSurface(1)]
    );
    assert_eq!(app.view_window(1), Window::PolkitDialog);
    assert_eq!(app.view_window(2), Window::Empty);
    assert_eq!(app.update(Msg::PolkitDialog(1, agent(HelperEvent::Responder)), 0), Vec::new());
    assert_eq!(
        app.update(Msg::PolkitDialog(1, agent(HelperEvent::Request("Password: ".to_string(), false))), 0),
        Vec::new()
    );
    app.update(Msg::PolkitDialog(1, polkit_dialog::Msg::Password("pw".to_string())), 0);
    assert_eq!(
        app.update(Msg::PolkitDialog(1, polkit_dialog::Msg::Authenticate), 0),
        vec![Command::Respond(1, "pw".to_string())]
    );
    assert_eq!(
        app.update(Msg::PolkitDialog(1, agent(HelperEvent::Complete(false))), 0),
        vec![Command::Focus(1)]
    );
    assert_eq!(
        app.update(
            Msg::PolkitAgent(polkit_agent::Event::CancelDialog { cookie: "c2".to_string() }),
            0
        ),
        vec![Command::Finish(2, Verdict::Cancelled)]
    );
    assert_eq!(
        app.update(
            Msg::PolkitAgent(polkit_agent::Event::CancelDialog { cookie: "c2".to_string() }),
            0
        ),
        Vec::new()
    );
    assert_eq!(
        app.update(Msg::PolkitDialog(1, agent(HelperEvent::Complete(true))), 0),
        vec![Command::Finish(1, Verdict::Granted)]
    );
    assert_eq!(app.dialogs.len(), 0);
    assert_eq!(app.update(Msg::PolkitDialog(1, polkit_dialog::Msg::Cancel), 0), Vec::new());
    assert_eq!(app.view_window(1), Window::Empty);
}

#[test]
fn tasks_and_their_work() {
    assert_eq!(OsdTask::EnterBios.perform(), Perform::Restart(true));
    assert_eq!(OsdTask::Restart.perform(), Perform::Restart(false));
    assert_eq!(OsdTask::Shutdown.perform(), Perform::Shutdown);
    assert_eq!(OsdTask::LogOut.perform(), Perform::LogOut);
    assert_eq!(OsdTask::Touchpad.perform(), Perform::Nothing);
    assert_eq!(OsdTask::Display.perform(), Perform::Nothing);
    assert_eq!(OsdTask::IdentifyDisplays.perform(), Perform::Nothing);
    assert_eq!(OsdTask::DismissDisplayIdentifiers.perform(), Perform::Nothing);
    assert_eq!(
        headphones(true).perform(),
        Perform::ConfirmHeadphones {
            card_name: "card".to_string(),
            headphone_profile: "hp".to_string(),
            headset_profile: "hs".to_string(),
            headset_port_name: "port".to_string(),
            selected_headset: true,
        }
    );
    assert_eq!(OsdTask::EnterBios.action_name(), "enter-bios");
    assert_eq!(OsdTask::LogOut.action_name(), "log-out");
    assert_eq!(OsdTask::Restart.action_name(), "restart");
    assert_eq!(OsdTask::Shutdown.action_name(), "shutdown");
    assert_eq!(headphones(false).action_name(), "confirm-device-type");
    assert_eq!(OsdTask::Touchpad.action_name(), "touchpad");
    assert_eq!(OsdTask::Display.action_name(), "external-display");
    assert_eq!(OsdTask::IdentifyDisplays.action_name(), "identify-displays");
    assert_eq!(OsdTask::DismissDisplayIdentifiers.action_name(), "dismiss-display-identifiers");
    assert_eq!(OsdTask::LogOut.confirm_icon(), Some("system-log-out-symbolic"));
    assert_eq!(OsdTask::Restart.confirm_icon(), Some("system-restart-symbolic"));
    assert_eq!(OsdTask::EnterBios.confirm_icon(), Some("system-restart-symbolic"));
    assert_eq!(OsdTask::Shutdown.confirm_icon(), Some("system-shutdown-symbolic"));
    assert_eq!(headphones(false).confirm_icon(), None);
    let args = Args { subcommand: Some(OsdTask::Touchpad) };
    assert_eq!(args.action(), Some(&OsdTask::Touchpad));
    assert_eq!(Args { subcommand: None }.action(), None);
}

#[test]
fn what_confirmations_show() {
    let mut app = app();
    assert_eq!(app.osd.confirmation(), None);
    app.update(Msg::Action(OsdTask::Shutdown), 0);
    app.update(Msg::Countdown, 0);
    assert_eq!(
        app.osd.confirmation(),
        Some(Confirmation {
            action: "shutdown",
            icon: Some("system-shutdown-symbolic"),
            countdown: 59,
            offers_restart: true,
            selected_headset: None,
        })
    );
    app.dbus_activation(Details::ActivateAction(Some(headphones(false))));
    app.update(Msg::Headphones(true), 0);
    assert_eq!(
        app.osd.confirmation(),
        Some(Confirmation {
            action: "confirm-device-type",
            icon: None,
            countdown: 60,
            offers_restart: false,
            selected_headset: Some(true),
        })
    );
}

#[test]
fn helper_that_cannot_be_run_opens_no_dialog() {
    let mut app = app();
    let mut asked = app.update(Msg::PolkitAgent(polkit_agent::Event::BeginSession(params("c1"))), 0);
    assert_eq!(asked, vec![Command::StartHelper(1)]);
    let (helper, event) = AgentHelper::new(Spawned::SpawnError);
    assert!(helper.has_ended());
    let more = app.update(Msg::PolkitDialog(1, polkit_dialog::Msg::Agent(event)), 0);
    assert_eq!(more, vec![Command::Finish(1, Verdict::Denied(Denial::Failed))]);
    asked.extend(more);
    asked.extend(app.update(
        Msg::PolkitDialog(1, polkit_dialog::Msg::Agent(HelperEvent::Failed)),
        0,
    ));
    assert_eq!(asked.len(), 2);
    assert!(!asked.iter().any(|c| matches!(c, Command::GetDialogSurface(_))));
    assert_eq!(app.dialogs.len(), 0);
    assert_eq!(app.view_window(1), Window::Empty);
}
