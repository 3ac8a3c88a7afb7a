//! Volume and mute of the default output and input, as the sound server
//! reports them.

use vstd::prelude::*;

verus! {

#[derive(Clone, Copy, Debug, PartialEq, Eq, Structural)]
pub enum Event {
    SinkVolume(u32),
    SinkMute(bool),
    SourceVolume(u32),
    SourceMute(bool),
}

/// The sound server's volume at which nothing is amplified or damped.
pub const VOLUME_NORMAL: u32 = 0x10000;

/// A raw volume in whole percents of the normal volume.
pub open spec fn percent_of(raw: u32) -> u32 {
    (raw / (VOLUME_NORMAL / 100)) as u32
}

/// Converts a raw volume to whole percents of the normal volume.
pub fn volume_percent(raw: u32) -> (percent: u32)
    ensures
        percent == percent_of(raw),
        percent == raw as int / 655,
{
    raw / (VOLUME_NORMAL / 100)
}

/// What the daemon last heard of the default devices.
#[derive(Debug)]
pub struct Data {
    pub default_sink_name: Option<String>,
    pub default_source_name: Option<String>,
    pub sink_volume: Option<u32>,
    pub sink_mute: Option<bool>,
    pub source_volume: Option<u32>,
    pub source_mute: Option<bool>,
}

/// What a name is as far as the contracts care.
pub open spec fn name_view(name: Option<String>) -> Option<Seq<char>> {
    match name {
        Some(n) => Some(n@),
        None => None,
    }
}

/// What the server is to be asked after it reported on a subscription.
#[derive(Clone, Copy, Debug, PartialEq, Eq, Structural)]
pub enum Query {
    ServerInfo,
    SinkInfoByIndex(u32),
    SourceInfoByIndex(u32),
}

/// What changed at the server.
#[derive(Clone, Copy, Debug, PartialEq, Eq, Structural)]
pub enum Facility {
    Server,
    Sink,
    Source,
    /// Anything else the server reports on.
    Other,
}

fn same_name(a: &Option<String>, b: &Option<String>) -> (same: bool)
    ensures
        same == (name_view(*a) == name_view(*b)),
{
    match (a, b) {
        (Some(x), Some(y)) => *x == *y,
        (None, None) => true,
        _ => false,
    }
}

/// The events for a reported mute and volume against what was known: the
/// mute first, each only if it is not what was known.
pub open spec fn level_events(
    known_mute: Option<bool>,
    known_volume: Option<u32>,
    mute: bool,
    volume: u32,
    sink: bool,
) -> Seq<Event> {
    let first = if known_mute != Some(mute) {
        seq![
            if sink {
                Event::SinkMute(mute)
            } else {
                Event::SourceMute(mute)
            },
        ]
    } else {
        Seq::empty()
    };
    if known_volume != Some(volume) {
        first.push(
            if sink {
                Event::SinkVolume(volume)
            } else {
                Event::SourceVolume(volume)
            },
        )
    } else {
        first
    }
}

impl Data {
    /// Nothing heard yet.
    pub fn new() -> (data: Data)
        ensures
            data.default_sink_name is None,
            data.default_source_name is None,
            data.sink_volume is None,
            data.sink_mute is None,
            data.source_volume is None,
            data.source_mute is None,
    {
        Data {
            default_sink_name: None,
            default_source_name: None,
            sink_volume: None,
            sink_mute: None,
            source_volume: None,
            source_mute: None,
        }
    }

    /// Takes the server's default device names. Returns, for the output and
    /// for the input, whether the device is to be asked about by name: that
    /// is when the name is new and names a device.
    pub fn server_info_cb(&mut self, sink: Option<String>, source: Option<String>) -> (ask: (
        bool,
        bool,
    ))
        ensures
            final(self).default_sink_name == sink,
            final(self).default_source_name == source,
            final(self).sink_volume == old(self).sink_volume,
            final(self).sink_mute == old(self).sink_mute,
            final(self).source_volume == old(self).source_volume,
            final(self).source_mute == old(self).source_mute,
            ask.0 == (sink is Some && name_view(sink) != name_view(old(self).default_sink_name)),
            ask.1 == (source is Some && name_view(source) != name_view(
                old(self).default_source_name,
            )),
    {
        let ask_sink = sink.is_some() && !same_name(&sink, &self.default_sink_name);
        let ask_source = source.is_some() && !same_name(&source, &self.default_source_name);
        self.default_sink_name = sink;
        self.default_source_name = source;
        (ask_sink, ask_source)
    }

    /// Takes the state of an output device, its volume as the raw average
    /// over its channels. A device that is not the default output is passed
    /// over; for the default one, what changed is remembered and reported.
    pub fn sink_info_cb(&mut self, name: &Option<String>, raw_volume: u32, mute: bool) -> (events:
        Vec<Event>)
        ensures
            final(self).default_sink_name == old(self).default_sink_name,
            final(self).default_source_name == old(self).default_source_name,
            final(self).source_volume == old(self).source_volume,
            final(self).source_mute == old(self).source_mute,
            name_view(*name) != name_view(old(self).default_sink_name) ==> events@.len() == 0
                && final(self).sink_mute == old(self).sink_mute && final(self).sink_volume == old(
                self,
            ).sink_volume,
            name_view(*name) == name_view(old(self).default_sink_name) ==> events@ == level_events(
                old(self).sink_mute,
                old(self).sink_volume,
                mute,
                percent_of(raw_volume),
                true,
            ) && final(self).sink_mute == Some(mute) && final(self).sink_volume == Some(
                percent_of(raw_volume),
            ),
    {
        let mut events: Vec<Event> = Vec::new();
        if !same_name(name, &self.default_sink_name) {
            return events;
        }
        let volume = volume_percent(raw_volume);
        let mute_known = match self.sink_mute {
            Some(known) => known == mute,
            None => false,
        };
        if !mute_known {
            self.sink_mute = Some(mute);
            events.push(Event::SinkMute(mute));
        }
        let volume_known = match self.sink_volume {
            Some(known) => known == volume,
            None => false,
        };
        if !volume_known {
            self.sink_volume = Some(volume);
            events.push(Event::SinkVolume(volume));
        }
        assert(events@ =~= level_events(old(self).sink_mute, old(self).sink_volume, mute, volume, true));
        events
    }

    /// Takes the state of an input device; as `sink_info_cb`, for the
    /// default input.
    pub fn source_info_cb(&mut self, name: &Option<String>, raw_volume: u32, mute: bool) -> (events:
        Vec<Event>)
        ensures
            final(self).default_sink_name == old(self).default_sink_name,
            final(self).default_source_name == old(self).default_source_name,
            final(self).sink_volume == old(self).sink_volume,
            final(self).sink_mute == old(self).sink_mute,
            name_view(*name) != name_view(old(self).default_source_name) ==> events@.len() == 0
                && final(self).source_mute == old(self).source_mute && final(self).source_volume
                == old(self).source_volume,
            name_view(*name) == name_view(old(self).default_source_name) ==> events@
                == level_events(
                old(self).source_mute,
                old(self).source_volume,
                mute,
                percent_of(raw_volume),
                false,
            ) && final(self).source_mute == Some(mute) && final(self).source_volume == Some(
                percent_of(raw_volume),
            ),
    {
        let mut events: Vec<Event> = Vec::new();
        if !same_name(name, &self.default_source_name) {
            return events;
        }
        let volume = volume_percent(raw_volume);
        let mute_known = match self.source_mute {
            Some(known) => known == mute,
            None => false,
        };
        if !mute_known {
            self.source_mute = Some(mute);
            events.push(Event::SourceMute(mute));
        }
        let volume_known = match self.source_volume {
            Some(known) => known == volume,
            None => false,
        };
        if !volume_known {
            self.source_volume = Some(volume);
            events.push(Event::SourceVolume(volume));
        }
        assert(events@ =~= level_events(
            old(self).source_mute,
            old(self).source_volume,
            mute,
            volume,
            false,
        ));
        events
    }

    /// What to ask the server after it reported a change.
    pub fn subscribe_cb(facility: Facility, index: u32) -> (query: Option<Query>)
        ensures
            query == (match facility {
                Facility::Server => Some(Query::ServerInfo),
                Facility::Sink => Some(Query::SinkInfoByIndex(index)),
                Facility::Source => Some(Query::SourceInfoByIndex(index)),
                Facility::Other => None,
            }),
    {
        match facility {
            Facility::Server => Some(Query::ServerInfo),
            Facility::Sink => Some(Query::SinkInfoByIndex(index)),
            Facility::Source => Some(Query::SourceInfoByIndex(index)),
            Facility::Other => None,
        }
    }
}

} // verus!
