use cosmic_osd::components::app::DisplayMode;
use cosmic_osd::components::displays::{
    compare_names, enabled_displays, internal_name, toggle_displays, trigger_identify_displays,
    List, Mode, Order, Output,
};
use cosmic_osd::components::tasks::{
    confirm_headphones, log_out, trim, Headset, Next, Pactl, Ran, Session, Stage,
};

fn output(name: &str, enabled: bool, x: i32, modes: Vec<usize>, current: Option<usize>) -> Output {
    Output { name: name.to_string(), enabled, position: (x, 0), modes, current }
}

fn modes() -> Vec<Mode> {
    vec![
        Mode { size: (1920, 1080), preferred: false },
        Mode { size: (2560, 1440), preferred: true },
        Mode { size: (1280, 720), preferred: false },
    ]
}

#[test]
fn names_compare_by_bytes() {
    assert_eq!(compare_names("DP-1", "DP-2"), Order::Before);
    assert_eq!(compare_names("DP-2", "DP-1"), Order::After);
    assert_eq!(compare_names("DP-1", "DP-1"), Order::Same);
    assert_eq!(compare_names("DP-1", "DP-10"), Order::Before);
    assert_eq!(compare_names("", "a"), Order::Before);
    assert_eq!(compare_names("", ""), Order::Same);
    assert_eq!(compare_names("Z", "a"), Order::Before);
    assert_eq!(compare_names("é", "z"), Order::After);
}

#[test]
fn enabled_displays_are_numbered_by_name() {
    let outputs = vec![
        output("eDP-1", true, 0, vec![], None),
        output("HDMI-A-1", false, 0, vec![], None),
        output("DP-2", true, 0, vec![], None),
        output("DP-10", true, 0, vec![], None),
    ];
    assert_eq!(
        enabled_displays(&outputs),
        vec![("DP-10".to_string(), 1), ("DP-2".to_string(), 2), ("eDP-1".to_string(), 3)]
    );
    assert_eq!(enabled_displays(&Vec::new()), Vec::new());
}

#[test]
fn a_single_display_gets_no_number() {
    let list = List { outputs: vec![output("eDP-1", true, 0, vec![], None)], modes: modes() };
    assert_eq!(trigger_identify_displays(Some(&list)), Vec::new());
    let list = List {
        outputs: vec![output("eDP-1", true, 0, vec![], None), output("DP-1", false, 0, vec![], None)],
        modes: modes(),
    };
    assert_eq!(trigger_identify_displays(Some(&list)), Vec::new());
    assert_eq!(trigger_identify_displays(None), Vec::new());
    let list = List {
        outputs: vec![output("eDP-1", true, 0, vec![], None), output("DP-1", true, 0, vec![], None)],
        modes: modes(),
    };
    assert_eq!(
        trigger_identify_displays(Some(&list)),
        vec![("DP-1".to_string(), 1), ("eDP-1".to_string(), 2)]
    );
}

#[test]
fn internal_names() {
    assert!(internal_name("eDP-1"));
    assert!(internal_name("LVDS-1"));
    assert!(internal_name("DSI-2"));
    assert!(internal_name("eDP-"));
    assert!(!internal_name("eDP"));
    assert!(!internal_name("DP-1"));
    assert!(!internal_name("HDMI-A-1"));
    assert!(!internal_name("edp-1"));
    assert!(!internal_name(""));
}

#[test]
fn internal_goes_off_when_an_external_is_on() {
    let mut list = List {
        outputs: vec![
            output("eDP-1", true, 0, vec![0], Some(0)),
            output("DP-1", true, 1920, vec![1], Some(1)),
        ],
        modes: modes(),
    };
    assert_eq!(toggle_displays(&mut list), Some(DisplayMode::External));
    assert!(!list.outputs[0].enabled);
    assert!(list.outputs[1].enabled);
    assert_eq!(list.outputs[0].position, (0, 0));
}

#[test]
fn the_only_display_is_not_switched_off() {
    let mut list = List {
        outputs: vec![
            output("eDP-1", true, 0, vec![0], Some(0)),
            output("DP-1", false, 1920, vec![1], Some(1)),
        ],
        modes: modes(),
    };
    assert_eq!(toggle_displays(&mut list), None);
    assert!(list.outputs[0].enabled);
}

#[test]
fn without_internal_display_nothing_is_done() {
    let mut list = List { outputs: vec![output("DP-1", true, 0, vec![1], Some(1))], modes: modes() };
    assert_eq!(toggle_displays(&mut list), None);
    let mut list = List { outputs: Vec::new(), modes: modes() };
    assert_eq!(toggle_displays(&mut list), None);
}

#[test]
fn internal_goes_on_right_of_the_external() {
    let mut list = List {
        outputs: vec![
            output("eDP-1", false, 0, vec![0, 1, 2], None),
            output("DP-1", true, 0, vec![0], Some(0)),
        ],
        modes: modes(),
    };
    assert_eq!(toggle_displays(&mut list), Some(DisplayMode::All));
    assert!(list.outputs[0].enabled);
    assert_eq!(list.outputs[0].current, Some(1));
    assert_eq!(list.outputs[0].position, (1920, 0));
    assert_eq!(list.outputs[1].position, (0, 0));
}

#[test]
fn internal_skips_places_that_are_taken() {
    let mut list = List {
        outputs: vec![
            output("DP-1", true, 0, vec![0], Some(0)),
            output("DP-2", true, 1920, vec![0], Some(0)),
            output("eDP-1", false, 0, vec![2], None),
            output("LVDS-1", false, 0, vec![], None),
        ],
        modes: modes(),
    };
    assert_eq!(toggle_displays(&mut list), Some(DisplayMode::All));
    assert_eq!(list.outputs[2].current, Some(2));
    assert_eq!(list.outputs[2].position, (3840, 0));
    assert!(list.outputs[3].enabled);
    assert_eq!(list.outputs[3].current, None);
    assert_eq!(list.outputs[3].position, (0, 0));
}

#[test]
fn first_mode_is_used_when_none_is_preferred() {
    let mut list = List {
        outputs: vec![
            output("eDP-1", false, 5, vec![2, 0], None),
            output("DP-1", true, 100, vec![0], Some(0)),
        ],
        modes: modes(),
    };
    assert_eq!(toggle_displays(&mut list), Some(DisplayMode::All));
    assert_eq!(list.outputs[0].current, Some(2));
    assert_eq!(list.outputs[0].position, (2020, 0));
}

#[test]
fn unknown_mode_keeps_the_position() {
    let mut list = List {
        outputs: vec![
            output("eDP-1", false, 5, vec![9], None),
            output("DP-1", true, 100, vec![0], Some(0)),
        ],
        modes: modes(),
    };
    assert_eq!(toggle_displays(&mut list), Some(DisplayMode::All));
    assert!(list.outputs[0].enabled);
    assert_eq!(list.outputs[0].current, Some(9));
    assert_eq!(list.outputs[0].position, (5, 0));
}

#[test]
fn trims_white_space_at_both_ends() {
    assert_eq!(trim("  a b \n"), "a b");
    assert_eq!(trim("\t\r\n"), "");
    assert_eq!(trim(""), "");
    assert_eq!(trim("x"), "x");
    assert_eq!(trim("\u{a0}x\u{3000}"), "x");
    assert_eq!(trim("\u{200b}x"), "\u{200b}x");
    for s in ["  a b \n", "\u{2003}q\u{85}", " \u{1680}z ", "plain", "\u{feff}k "] {
        assert_eq!(trim(s), s.trim());
    }
}

#[test]
fn gnome_session_is_recognised() {
    assert_eq!(log_out(Some("pop:GNOME")), Session::Gnome);
    assert_eq!(log_out(Some(" pop:GNOME\n")), Session::Gnome);
    assert_eq!(log_out(Some("COSMIC")), Session::Cosmic);
    assert_eq!(log_out(Some("pop:gnome")), Session::Cosmic);
    assert_eq!(log_out(Some("")), Session::Cosmic);
    assert_eq!(log_out(None), Session::Cosmic);
}

fn headset(selected: bool) -> Headset {
    Headset {
        card_name: "card0".to_string(),
        headphone_profile: "phones".to_string(),
        headset_profile: "set".to_string(),
        headset_port_name: "port-mic".to_string(),
        selected_headset: selected,
    }
}

#[test]
fn headphones_need_one_call() {
    let choice = headset(false);
    let next = confirm_headphones(&choice, Stage::Start, Ran::Succeeded(String::new()));
    assert!(matches!(
        next,
        Next::Run(Stage::SettingProfile, Pactl::SetCardProfile(card, profile))
            if card == "card0" && profile == "phones"
    ));
    let next = confirm_headphones(&choice, Stage::SettingProfile, Ran::Succeeded(String::new()));
    assert!(matches!(next, Next::Done));
}

#[test]
fn headset_needs_three_calls() {
    let choice = headset(true);
    let next = confirm_headphones(&choice, Stage::Start, Ran::Succeeded(String::new()));
    assert!(matches!(
        next,
        Next::Run(Stage::SettingProfile, Pactl::SetCardProfile(card, profile))
            if card == "card0" && profile == "set"
    ));
    let next = confirm_headphones(&choice, Stage::SettingProfile, Ran::Succeeded(String::new()));
    assert!(matches!(next, Next::Run(Stage::AskingSource, Pactl::GetDefaultSource)));
    let next =
        confirm_headphones(&choice, Stage::AskingSource, Ran::Succeeded("alsa_input.x\n".to_string()));
    assert!(matches!(
        next,
        Next::Run(Stage::SettingPort, Pactl::SetSourcePort(source, port))
            if source == "alsa_input.x" && port == "port-mic"
    ));
    let next = confirm_headphones(&choice, Stage::SettingPort, Ran::Succeeded(String::new()));
    assert!(matches!(next, Next::Done));
}

#[test]
fn failed_calls_end_the_switch_with_their_error() {
    let choice = headset(true);
    let next =
        confirm_headphones(&choice, Stage::SettingProfile, Ran::Failed("exit status: 1".to_string()));
    assert!(matches!(next, Next::Error(text) if text == "pactl exited with status: exit status: 1"));
    let next =
        confirm_headphones(&choice, Stage::SettingProfile, Ran::NotRun("No such file".to_string()));
    assert!(matches!(next, Next::Error(text) if text == "Failed to run pactl: No such file"));
    let next = confirm_headphones(&choice, Stage::AskingSource, Ran::Failed("1".to_string()));
    assert!(matches!(next, Next::Error(text) if text == "Failed to get source name."));
    let next = confirm_headphones(&choice, Stage::AskingSource, Ran::NotRun("gone".to_string()));
    assert!(matches!(next, Next::Error(text) if text == "gone"));
    let next = confirm_headphones(&choice, Stage::SettingPort, Ran::Failed("1".to_string()));
    assert!(matches!(next, Next::Error(text) if text == "Failed to set port."));
    let next = confirm_headphones(&choice, Stage::SettingPort, Ran::NotRun("gone".to_string()));
    assert!(matches!(next, Next::Error(text) if text == "gone"));
}
