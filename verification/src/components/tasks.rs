//! What carrying out a confirmed task takes, step by step.

use vstd::prelude::*;
use vstd::string::*;

verus! {

/// The characters that count as white space.
pub open spec fn is_white_space(c: char) -> bool {
    let n = c as u32;
    ||| 0x9 <= n <= 0xD
    ||| n == 0x20
    ||| n == 0x85
    ||| n == 0xA0
    ||| n == 0x1680
    ||| 0x2000 <= n <= 0x200A
    ||| n == 0x2028
    ||| n == 0x2029
    ||| n == 0x202F
    ||| n == 0x205F
    ||| n == 0x3000
}

/// `s` without the white space it starts with.
pub open spec fn trimmed_start(s: Seq<char>) -> Seq<char>
    decreases s.len(),
{
    if s.len() > 0 && is_white_space(s[0]) {
        trimmed_start(s.drop_first())
    } else {
        s
    }
}

/// `s` without the white space it ends with.
pub open spec fn trimmed_end(s: Seq<char>) -> Seq<char>
    decreases s.len(),
{
    if s.len() > 0 && is_white_space(s.last()) {
        trimmed_end(s.drop_last())
    } else {
        s
    }
}

/// `s` without the white space at either end.
pub open spec fn trimmed(s: Seq<char>) -> Seq<char> {
    trimmed_end(trimmed_start(s))
}

fn white_space(c: char) -> (yes: bool)
    ensures
        yes == is_white_space(c),
{
    let n = c as u32;
    (0x9 <= n && n <= 0xD) || n == 0x20 || n == 0x85 || n == 0xA0 || n == 0x1680 || (0x2000 <= n
        && n <= 0x200A) || n == 0x2028 || n == 0x2029 || n == 0x202F || n == 0x205F || n == 0x3000
}

/// Takes the white space off both ends of a text.
pub fn trim(s: &str) -> (t: &str)
    ensures
        t@ == trimmed(s@),
{
    let n = s.unicode_len();
    let mut start: usize = 0;
    assert(s@.subrange(0, n as int) =~= s@);
    while start < n && white_space(s.get_char(start))
        invariant
            start <= n,
            n == s@.len(),
            trimmed_start(s@) == trimmed_start(s@.subrange(start as int, n as int)),
        decreases n - start,
    {
        assert(s@.subrange(start as int, n as int).drop_first() =~= s@.subrange(start + 1, n as int));
        start += 1;
    }
    let mut end: usize = n;
    while end > start && white_space(s.get_char(end - 1))
        invariant
            start <= end <= n,
            n == s@.len(),
            trimmed_end(s@.subrange(start as int, n as int)) == trimmed_end(
                s@.subrange(start as int, end as int),
            ),
        decreases end,
    {
        assert(s@.subrange(start as int, end as int).drop_last() =~= s@.subrange(
            start as int,
            end - 1,
        ));
        end -= 1;
    }
    s.substring_char(start, end)
}

/// Which session manager ends the session.
#[derive(Clone, Copy, Debug, PartialEq, Eq, Structural)]
pub enum Session {
    Gnome,
    Cosmic,
}

/// Picks the session manager to log out through, from the name of the
/// current desktop: the GNOME one for `pop:GNOME`, white space around it
/// set aside, and the daemon's own for every other name and for none.
pub fn log_out(desktop: Option<&str>) -> (session: Session)
    ensures
        session == (if desktop matches Some(name) && trimmed(name@) == "pop:GNOME"@ {
            Session::Gnome
        } else {
            Session::Cosmic
        }),
{
    match desktop {
        Some(name) => {
            if trim(name).to_owned() == "pop:GNOME".to_owned() {
                Session::Gnome
            } else {
                Session::Cosmic
            }
        },
        None => Session::Cosmic,
    }
}

/// The choice between headphones and headset that was confirmed.
#[derive(Clone, Debug)]
pub struct Headset {
    pub card_name: String,
    pub headphone_profile: String,
    pub headset_profile: String,
    pub headset_port_name: String,
    pub selected_headset: bool,
}

/// One call of the sound server's command line tool.
#[derive(Clone, Debug)]
pub enum Pactl {
    /// `set-card-profile`, with the card and the profile.
    SetCardProfile(String, String),
    /// `get-default-source`, whose output is read.
    GetDefaultSource,
    /// `set-source-port`, with the source and the port.
    SetSourcePort(String, String),
}

/// How a call of the tool went.
#[derive(Clone, Debug)]
pub enum Ran {
    /// It ran and succeeded; what it printed.
    Succeeded(String),
    /// It ran and failed; its exit status, as text.
    Failed(String),
    /// It could not be run; the error, as text.
    NotRun(String),
}

/// How far the switch has come.
#[derive(Clone, Copy, Debug, PartialEq, Eq, Structural)]
pub enum Stage {
    Start,
    SettingProfile,
    AskingSource,
    SettingPort,
}

/// What is to be done next.
#[derive(Clone, Debug)]
pub enum Next {
    Run(Stage, Pactl),
    Done,
    Error(String),
}

/// The profile to switch the card to.
pub open spec fn profile_of(choice: Headset) -> String {
    if choice.selected_headset {
        choice.headset_profile
    } else {
        choice.headphone_profile
    }
}

/// What follows in `stage` on `ran`. The card's profile is set first. For
/// headphones that is all. For a headset the default source is asked for
/// and its port is set to the headset's. The first call that fails or
/// cannot be run ends the switch with an error.
pub open spec fn follows(choice: Headset, stage: Stage, ran: Ran, next: Next) -> bool {
    match (stage, ran) {
        (Stage::Start, _) => next matches Next::Run(Stage::SettingProfile, Pactl::SetCardProfile(card, profile))
            && card@ == choice.card_name@ && profile@ == profile_of(choice)@,
        (Stage::SettingProfile, Ran::Succeeded(_)) => if choice.selected_headset {
            next matches Next::Run(Stage::AskingSource, Pactl::GetDefaultSource)
        } else {
            next is Done
        },
        (Stage::SettingProfile, Ran::Failed(status)) => next matches Next::Error(text) && text@
            == "pactl exited with status: "@ + status@,
        (Stage::SettingProfile, Ran::NotRun(error)) => next matches Next::Error(text) && text@
            == "Failed to run pactl: "@ + error@,
        (Stage::AskingSource, Ran::Succeeded(printed)) => next matches Next::Run(
            Stage::SettingPort,
            Pactl::SetSourcePort(source, port),
        ) && source@ == trimmed(printed@) && port@ == choice.headset_port_name@,
        (Stage::AskingSource, Ran::Failed(_)) => next matches Next::Error(text) && text@
            == "Failed to get source name."@,
        (Stage::SettingPort, Ran::Succeeded(_)) => next is Done,
        (Stage::SettingPort, Ran::Failed(_)) => next matches Next::Error(text) && text@
            == "Failed to set port."@,
        (_, Ran::NotRun(error)) => next matches Next::Error(text) && text@ == error@,
    }
}

/// One step of switching the sound card for headphones or a headset: from
/// the stage and how the call of that stage went, to what is next. The
/// first step, from `Start`, takes any `ran`.
pub fn confirm_headphones(choice: &Headset, stage: Stage, ran: Ran) -> (next: Next)
    ensures
        follows(*choice, stage, ran, next),
{
    match stage {
        Stage::Start => {
            let profile = if choice.selected_headset {
                choice.headset_profile.clone()
            } else {
                choice.headphone_profile.clone()
            };
            Next::Run(Stage::SettingProfile, Pactl::SetCardProfile(choice.card_name.clone(), profile))
        },
        Stage::SettingProfile => match ran {
            Ran::Succeeded(_) => if choice.selected_headset {
                Next::Run(Stage::AskingSource, Pactl::GetDefaultSource)
            } else {
                Next::Done
            },
            Ran::Failed(status) => Next::Error(
                "pactl exited with status: ".to_owned().concat(status.as_str()),
            ),
            Ran::NotRun(error) => Next::Error("Failed to run pactl: ".to_owned().concat(error.as_str())),
        },
        Stage::AskingSource => match ran {
            Ran::Succeeded(printed) => Next::Run(
                Stage::SettingPort,
                Pactl::SetSourcePort(
                    trim(printed.as_str()).to_owned(),
                    choice.headset_port_name.clone(),
                ),
            ),
            Ran::Failed(_) => Next::Error("Failed to get source name.".to_owned()),
            Ran::NotRun(error) => Next::Error(error),
        },
        Stage::SettingPort => match ran {
            Ran::Succeeded(_) => Next::Done,
            Ran::Failed(_) => Next::Error("Failed to set port.".to_owned()),
            Ran::NotRun(error) => Next::Error(error),
        },
    }
}

} // verus!
