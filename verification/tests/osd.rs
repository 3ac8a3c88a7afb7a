use std::collections::HashMap;

use cosmic_osd::components::app::DisplayMode;
use cosmic_osd::components::osd_indicator::{
    Anchor, Level, Msg, Params, Shown, State, SurfaceSettings, TouchpadOverride,
};
use cosmic_osd::config::{amplification_sink, amplification_source};
use cosmic_osd::subscriptions::airplane_mode::{is_airplane_mode, subscription as airplane_report};
use cosmic_osd::subscriptions::airplane_mode::rfkill::{
    apply_event, apply_events, rfkill_event, DeviceState, RFKILL_OP_ADD, RFKILL_OP_CHANGE,
    RFKILL_OP_DEL,
};
use cosmic_osd::subscriptions::dbus;
use cosmic_osd::subscriptions::keyboard;
use cosmic_osd::subscriptions::pulse::{volume_percent, Data, Event, Facility, Query};
use cosmic_osd::subscriptions::settings_daemon;

#[test]
fn volume_icons_follow_the_bands() {
    assert_eq!(Params::SinkVolume(0, false).icon_name(), "audio-volume-muted-symbolic");
    assert_eq!(Params::SinkVolume(50, true).icon_name(), "audio-volume-muted-symbolic");
    assert_eq!(Params::SinkVolume(1, false).icon_name(), "audio-volume-low-symbolic");
    assert_eq!(Params::SinkVolume(32, false).icon_name(), "audio-volume-low-symbolic");
    assert_eq!(Params::SinkVolume(33, false).icon_name(), "audio-volume-medium-symbolic");
    assert_eq!(Params::SinkVolume(65, false).icon_name(), "audio-volume-medium-symbolic");
    assert_eq!(Params::SinkVolume(66, false).icon_name(), "audio-volume-high-symbolic");
    assert_eq!(Params::SinkVolume(100, false).icon_name(), "audio-volume-high-symbolic");
    assert_eq!(Params::SinkVolume(101, false).icon_name(), "audio-volume-overamplified-symbolic");
    assert_eq!(Params::SourceVolume(0, false).icon_name(), "microphone-sensitivity-muted-symbolic");
    assert_eq!(Params::SourceVolume(9, true).icon_name(), "microphone-sensitivity-muted-symbolic");
    assert_eq!(Params::SourceVolume(32, false).icon_name(), "microphone-sensitivity-low-symbolic");
    assert_eq!(Params::SourceVolume(65, false).icon_name(), "microphone-sensitivity-medium-symbolic");
    assert_eq!(Params::SourceVolume(66, false).icon_name(), "microphone-sensitivity-high-symbolic");
    assert_eq!(Params::SourceVolume(150, false).icon_name(), "microphone-sensitivity-high-symbolic");
}

#[test]
fn other_icons() {
    assert_eq!(Params::DisplayBrightness(3).icon_name(), "display-brightness-symbolic");
    assert_eq!(Params::DisplayBrightnessExact(3, 255).icon_name(), "display-brightness-symbolic");
    assert_eq!(Params::DisplayToggle(DisplayMode::All).icon_name(), "laptop-symbolic");
    assert_eq!(Params::DisplayToggle(DisplayMode::External).icon_name(), "display-symbolic");
    assert_eq!(Params::KeyboardBrightness(1, 2).icon_name(), "keyboard-brightness-symbolic");
    assert_eq!(Params::AirplaneMode(true).icon_name(), "airplane-mode-symbolic");
    assert_eq!(Params::AirplaneMode(false).icon_name(), "airplane-mode-disabled-symbolic");
    assert_eq!(
        Params::TouchpadEnabled(TouchpadOverride::Unset).icon_name(),
        "input-touchpad-symbolic"
    );
    assert_eq!(
        Params::TouchpadEnabled(TouchpadOverride::ForceDisable).icon_name(),
        "touchpad-disabled-symbolic"
    );
}

#[test]
fn bar_levels() {
    assert_eq!(Params::SinkVolume(70, false).value(), Some(Level::Percent(70)));
    assert_eq!(Params::SinkVolume(70, true).value(), Some(Level::Percent(0)));
    assert_eq!(Params::SourceVolume(120, false).value(), Some(Level::Percent(120)));
    assert_eq!(Params::SourceVolume(120, true).value(), Some(Level::Percent(0)));
    assert_eq!(Params::DisplayBrightness(7).value(), Some(Level::Rung(7)));
    assert_eq!(Params::DisplayBrightnessExact(128, 255).value(), Some(Level::Exact(128, 255)));
    assert_eq!(Params::KeyboardBrightness(1, 3).value(), Some(Level::Fraction(1, 3)));
    assert_eq!(Params::AirplaneMode(true).value(), None);
    assert_eq!(Params::DisplayNumber(2).value(), None);
    assert_eq!(Params::DisplayToggle(DisplayMode::All).value(), None);
    assert_eq!(Params::TouchpadEnabled(TouchpadOverride::Unset).value(), None);
}

#[test]
fn indicator_surfaces() {
    let (state, settings) = State::new(4, Params::AirplaneMode(true), true, false);
    assert_eq!(
        settings,
        SurfaceSettings { id: 4, anchor: Anchor::Bottom, exclusive_zone: 0, margin_top: 0, timeout_secs: 3 }
    );
    assert_eq!(state.margin, (0, 0, 48, 0));
    assert_eq!(state.id, 4);
    let (state, settings) = State::new(5, Params::DisplayNumber(2), true, false);
    assert_eq!(
        settings,
        SurfaceSettings { id: 5, anchor: Anchor::Top, exclusive_zone: -1, margin_top: 48, timeout_secs: 1 }
    );
    assert_eq!(state.margin, (48, 0, 0, 0));
    assert_eq!(*state.params(), Params::DisplayNumber(2));
}

#[test]
fn indicator_timers_and_limits() {
    let (mut state, _) = State::new(1, Params::SinkVolume(10, false), true, false);
    assert_eq!(state.max_value(), 150);
    assert_eq!(state.reset_display_identifier_timer(), None);
    assert_eq!(state.replace_params(Params::SourceVolume(10, false)), 3);
    assert_eq!(state.max_value(), 100);
    state.replace_params(Params::AirplaneMode(false));
    assert_eq!(state.max_value(), 100);
    let (number, _) = State::new(2, Params::DisplayNumber(1), false, true);
    assert_eq!(number.reset_display_identifier_timer(), Some(1));
    let (source, _) = State::new(3, Params::SourceVolume(1, false), false, true);
    assert_eq!(source.max_value(), 150);
    let (sink, _) = State::new(3, Params::SinkVolume(1, false), false, true);
    assert_eq!(sink.max_value(), 100);
}

#[test]
fn indicator_closes_on_its_timer() {
    let (state, _) = State::new(9, Params::AirplaneMode(true), true, true);
    let (next, closed) = state.update(Msg::Ignore);
    assert!(next.is_some());
    assert_eq!(closed, None);
    let (next, closed) = state.update(Msg::Close);
    assert!(next.is_none());
    assert_eq!(closed, Some(9));
}

#[test]
fn amplification_defaults() {
    assert!(amplification_sink(None));
    assert!(!amplification_source(None));
    assert!(!amplification_sink(Some(false)));
    assert!(amplification_source(Some(true)));
}

fn device(soft: bool, hard: bool) -> DeviceState {
    DeviceState { type_: 1, soft, hard }
}

#[test]
fn airplane_mode_needs_a_device_and_all_blocked() {
    let mut devices: HashMap<u32, DeviceState> = HashMap::new();
    assert!(!is_airplane_mode(&devices));
    devices.insert(0, device(true, false));
    assert!(is_airplane_mode(&devices));
    devices.insert(1, device(false, true));
    assert!(is_airplane_mode(&devices));
    devices.insert(2, device(false, false));
    assert!(!is_airplane_mode(&devices));
    devices.insert(2, device(true, true));
    assert!(is_airplane_mode(&devices));
    assert_eq!(airplane_report(Some(&devices)), Some(true));
    assert_eq!(airplane_report(None), None);
}

#[test]
fn rfkill_records_build_the_table() {
    let mut devices: HashMap<u32, DeviceState> = HashMap::new();
    let add = rfkill_event { idx: 3, type_: 2, op: RFKILL_OP_ADD, soft: 0, hard: 0 };
    apply_event(&mut devices, &add);
    assert_eq!(devices.len(), 1);
    assert!(!devices[&3].soft && !devices[&3].hard);
    assert_eq!(devices[&3].type_, 2);
    let change = rfkill_event { idx: 3, type_: 2, op: RFKILL_OP_CHANGE, soft: 1, hard: 0 };
    apply_event(&mut devices, &change);
    assert!(devices[&3].soft && !devices[&3].hard);
    assert!(is_airplane_mode(&devices));
    let unknown = rfkill_event { idx: 3, type_: 2, op: 3, soft: 0, hard: 0 };
    apply_event(&mut devices, &unknown);
    assert!(devices[&3].soft);
    let del = rfkill_event { idx: 3, type_: 2, op: RFKILL_OP_DEL, soft: 0, hard: 0 };
    apply_event(&mut devices, &del);
    assert!(devices.is_empty());
    apply_events(
        &mut devices,
        &[
            rfkill_event { idx: 1, type_: 1, op: RFKILL_OP_ADD, soft: 0, hard: 2 },
            rfkill_event { idx: 2, type_: 1, op: RFKILL_OP_ADD, soft: 0, hard: 0 },
            rfkill_event { idx: 2, type_: 1, op: RFKILL_OP_DEL, soft: 0, hard: 0 },
        ],
    );
    assert_eq!(devices.len(), 1);
    assert!(devices[&1].hard);
    assert!(is_airplane_mode(&devices));
}

#[test]
fn volume_in_percent_of_normal() {
    assert_eq!(volume_percent(0), 0);
    assert_eq!(volume_percent(654), 0);
    assert_eq!(volume_percent(655), 1);
    assert_eq!(volume_percent(0x8000), 50);
    assert_eq!(volume_percent(0x10000), 100);
    assert_eq!(volume_percent(98304), 150);
}

#[test]
fn default_device_names_are_tracked() {
    let mut data = Data::new();
    assert_eq!(data.server_info_cb(Some("speakers".to_string()), None), (true, false));
    assert_eq!(
        data.server_info_cb(Some("speakers".to_string()), Some("mic".to_string())),
        (false, true)
    );
    assert_eq!(data.server_info_cb(Some("hdmi".to_string()), Some("mic".to_string())), (true, false));
    assert_eq!(data.server_info_cb(None, None), (false, false));
    assert_eq!(data.default_sink_name, None);
}

#[test]
fn only_changes_of_the_default_device_are_reported() {
    let mut data = Data::new();
    data.server_info_cb(Some("speakers".to_string()), Some("mic".to_string()));
    assert_eq!(data.sink_info_cb(&Some("other".to_string()), 0x10000, false), Vec::new());
    assert_eq!(
        data.sink_info_cb(&Some("speakers".to_string()), 0x10000, false),
        vec![Event::SinkMute(false), Event::SinkVolume(100)]
    );
    assert_eq!(data.sink_info_cb(&Some("speakers".to_string()), 0x10000, false), Vec::new());
    assert_eq!(
        data.sink_info_cb(&Some("speakers".to_string()), 0x8000, false),
        vec![Event::SinkVolume(50)]
    );
    assert_eq!(
        data.sink_info_cb(&Some("speakers".to_string()), 0x8000, true),
        vec![Event::SinkMute(true)]
    );
    assert_eq!(
        data.source_info_cb(&Some("mic".to_string()), 655, true),
        vec![Event::SourceMute(true), Event::SourceVolume(1)]
    );
    assert_eq!(data.source_info_cb(&None, 655, false), Vec::new());
    assert_eq!(data.sink_volume, Some(50));
    assert_eq!(data.source_mute, Some(true));
}

#[test]
fn server_reports_lead_to_queries() {
    assert_eq!(Data::subscribe_cb(Facility::Server, 4), Some(Query::ServerInfo));
    assert_eq!(Data::subscribe_cb(Facility::Sink, 4), Some(Query::SinkInfoByIndex(4)));
    assert_eq!(Data::subscribe_cb(Facility::Source, 5), Some(Query::SourceInfoByIndex(5)));
    assert_eq!(Data::subscribe_cb(Facility::Other, 5), None);
}

#[test]
fn connections_are_tried_once_each() {
    let (event, state) = dbus::subscription(dbus::State::Start, true);
    assert_eq!(event, Some(dbus::Event::Connection));
    assert_eq!(state, dbus::State::CreatedConnection);
    let (event, state) = dbus::subscription(state, false);
    assert_eq!(event, Some(dbus::Event::Error(dbus::Stage::SystemConnection)));
    assert_eq!(state, dbus::State::CreatedSystemConnection);
    let (event, state) = dbus::subscription(state, true);
    assert_eq!(event, None);
    assert_eq!(state, dbus::State::CreatedSystemConnection);
    let (event, _) = dbus::subscription(dbus::State::Start, false);
    assert_eq!(event, Some(dbus::Event::Error(dbus::Stage::SessionConnection)));
    let (event, _) = dbus::subscription(dbus::State::CreatedConnection, true);
    assert_eq!(event, Some(dbus::Event::SystemConnection));
    assert_eq!(dbus::context(dbus::Stage::SessionConnection), "create session connection");
    assert_eq!(dbus::context(dbus::Stage::SystemConnection), "create system connection");
    assert_eq!(dbus::attempt(dbus::State::CreatedSystemConnection), None);
    assert_eq!(
        dbus::result_to_event(true, dbus::Stage::SystemConnection),
        dbus::Event::SystemConnection
    );
}

#[test]
fn media_keys_and_settings_events() {
    assert_eq!(
        keyboard::subscription(keyboard::Named::BrightnessUp, false),
        Some(keyboard::Msg::BrightnessUp)
    );
    assert_eq!(
        keyboard::subscription(keyboard::Named::AudioVolumeMute, false),
        Some(keyboard::Msg::AudioVolumeMute)
    );
    assert_eq!(keyboard::subscription(keyboard::Named::AudioVolumeMute, true), None);
    assert_eq!(keyboard::subscription(keyboard::Named::Other, false), None);
    assert_eq!(
        settings_daemon::subscription(true, Some(7)),
        Some(settings_daemon::Event::DisplayBrightness(7))
    );
    assert_eq!(
        settings_daemon::subscription(false, Some(3)),
        Some(settings_daemon::Event::KeyboardBrightness(3))
    );
    assert_eq!(settings_daemon::subscription(true, None), None);
}

#[test]
fn what_indicators_show() {
    let (state, _) = State::new(1, Params::SinkVolume(120, false), true, false);
    assert_eq!(
        state.shown(),
        Shown::Bar {
            icon: "audio-volume-overamplified-symbolic",
            level: Level::Percent(120),
            max: 150,
            amplified: true
        }
    );
    let (state, _) = State::new(1, Params::SourceVolume(20, true), true, false);
    assert_eq!(
        state.shown(),
        Shown::Bar {
            icon: "microphone-sensitivity-muted-symbolic",
            level: Level::Percent(0),
            max: 100,
            amplified: false
        }
    );
    let (state, _) = State::new(1, Params::AirplaneMode(true), true, false);
    assert_eq!(state.shown(), Shown::Icon("airplane-mode-symbolic"));
    let (state, _) = State::new(1, Params::DisplayNumber(3), true, false);
    assert_eq!(state.shown(), Shown::Number(3));
}
