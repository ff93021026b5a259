//! Modes and commands that control requests carry, with their wire names.
use vstd::prelude::*;
use crate::text::text_eq;

verus! {

/// A playback command for the network/USB source.
#[derive(Clone, Copy, Debug, PartialEq, Eq, Structural)]
pub enum Playback {
    Play,
    Stop,
    Pause,
    PlayPause,
    Previous,
    Next,
    FastReverseStart,
    FastReverseEnd,
    FastForwardStart,
    FastForwardEnd,
}

impl Playback {
    /// The wire name: the variant's name in snake case.
    pub open spec fn name_spec(&self) -> Seq<char> {
        match self {
            Playback::Play => "play"@,
            Playback::Stop => "stop"@,
            Playback::Pause => "pause"@,
            Playback::PlayPause => "play_pause"@,
            Playback::Previous => "previous"@,
            Playback::Next => "next"@,
            Playback::FastReverseStart => "fast_reverse_start"@,
            Playback::FastReverseEnd => "fast_reverse_end"@,
            Playback::FastForwardStart => "fast_forward_start"@,
            Playback::FastForwardEnd => "fast_forward_end"@,
        }
    }

    pub fn name(&self) -> (r: &'static str)
        ensures
            r@ == self.name_spec(),
    {
        match self {
            Playback::Play => "play",
            Playback::Stop => "stop",
            Playback::Pause => "pause",
            Playback::PlayPause => "play_pause",
            Playback::Previous => "previous",
            Playback::Next => "next",
            Playback::FastReverseStart => "fast_reverse_start",
            Playback::FastReverseEnd => "fast_reverse_end",
            Playback::FastForwardStart => "fast_forward_start",
            Playback::FastForwardEnd => "fast_forward_end",
        }
    }

    /// The value whose wire name is `s`, if any.
    pub fn from_name(s: &str) -> (r: Option<Playback>)
        ensures
            match r {
                Some(v) => v.name_spec() == s@,
                None => forall|v: Playback| v.name_spec() != s@,
            },
    {
        if text_eq(s, "play") {
            return Some(Playback::Play);
        }
        if text_eq(s, "stop") {
            return Some(Playback::Stop);
        }
        if text_eq(s, "pause") {
            return Some(Playback::Pause);
        }
        if text_eq(s, "play_pause") {
            return Some(Playback::PlayPause);
        }
        if text_eq(s, "previous") {
            return Some(Playback::Previous);
        }
        if text_eq(s, "next") {
            return Some(Playback::Next);
        }
        if text_eq(s, "fast_reverse_start") {
            return Some(Playback::FastReverseStart);
        }
        if text_eq(s, "fast_reverse_end") {
            return Some(Playback::FastReverseEnd);
        }
        if text_eq(s, "fast_forward_start") {
            return Some(Playback::FastForwardStart);
        }
        if text_eq(s, "fast_forward_end") {
            return Some(Playback::FastForwardEnd);
        }
        None
    }
}

/// A repeat mode.
#[derive(Clone, Copy, Debug, PartialEq, Eq, Structural)]
pub enum Repeat {
    Off,
    One,
    All,
}

impl Repeat {
    /// The wire name: the variant's name in snake case.
    pub open spec fn name_spec(&self) -> Seq<char> {
        match self {
            Repeat::Off => "off"@,
            Repeat::One => "one"@,
            Repeat::All => "all"@,
        }
    }

    pub fn name(&self) -> (r: &'static str)
        ensures
            r@ == self.name_spec(),
    {
        match self {
            Repeat::Off => "off",
            Repeat::One => "one",
            Repeat::All => "all",
        }
    }

    /// The value whose wire name is `s`, if any.
    pub fn from_name(s: &str) -> (r: Option<Repeat>)
        ensures
            match r {
                Some(v) => v.name_spec() == s@,
                None => forall|v: Repeat| v.name_spec() != s@,
            },
    {
        if text_eq(s, "off") {
            return Some(Repeat::Off);
        }
        if text_eq(s, "one") {
            return Some(Repeat::One);
        }
        if text_eq(s, "all") {
            return Some(Repeat::All);
        }
        None
    }
}

/// A shuffle mode.
#[derive(Clone, Copy, Debug, PartialEq, Eq, Structural)]
pub enum Shuffle {
    Off,
    On,
    Songs,
    Albums,
}

impl Shuffle {
    /// The wire name: the variant's name in snake case.
    pub open spec fn name_spec(&self) -> Seq<char> {
        match self {
            Shuffle::Off => "off"@,
            Shuffle::On => "on"@,
            Shuffle::Songs => "songs"@,
            Shuffle::Albums => "albums"@,
        }
    }

    pub fn name(&self) -> (r: &'static str)
        ensures
            r@ == self.name_spec(),
    {
        match self {
            Shuffle::Off => "off",
            Shuffle::On => "on",
            Shuffle::Songs => "songs",
            Shuffle::Albums => "albums",
        }
    }

    /// The value whose wire name is `s`, if any.
    pub fn from_name(s: &str) -> (r: Option<Shuffle>)
        ensures
            match r {
                Some(v) => v.name_spec() == s@,
                None => forall|v: Shuffle| v.name_spec() != s@,
            },
    {
        if text_eq(s, "off") {
            return Some(Shuffle::Off);
        }
        if text_eq(s, "on") {
            return Some(Shuffle::On);
        }
        if text_eq(s, "songs") {
            return Some(Shuffle::Songs);
        }
        if text_eq(s, "albums") {
            return Some(Shuffle::Albums);
        }
        None
    }
}

/// An action on a list entry.
#[derive(Clone, Copy, Debug, PartialEq, Eq, Structural)]
pub enum ListControl {
    Select,
    Play,
    Return,
}

impl ListControl {
    /// The wire name: the variant's name in snake case.
    pub open spec fn name_spec(&self) -> Seq<char> {
        match self {
            ListControl::Select => "select"@,
            ListControl::Play => "play"@,
            ListControl::Return => "return"@,
        }
    }

    pub fn name(&self) -> (r: &'static str)
        ensures
            r@ == self.name_spec(),
    {
        match self {
            ListControl::Select => "select",
            ListControl::Play => "play",
            ListControl::Return => "return",
        }
    }

    /// The value whose wire name is `s`, if any.
    pub fn from_name(s: &str) -> (r: Option<ListControl>)
        ensures
            match r {
                Some(v) => v.name_spec() == s@,
                None => forall|v: ListControl| v.name_spec() != s@,
            },
    {
        if text_eq(s, "select") {
            return Some(ListControl::Select);
        }
        if text_eq(s, "play") {
            return Some(ListControl::Play);
        }
        if text_eq(s, "return") {
            return Some(ListControl::Return);
        }
        None
    }
}

} // verus!
