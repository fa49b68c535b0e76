//! Light and dark, and the colours of each.
use vstd::prelude::*;

use crate::status::{ProjectStatus, SyncDirection};
use crate::text::same;

verus! {

/// Which palette the app draws with.
#[derive(Clone, Copy, Debug, PartialEq, Eq, Structural)]
pub enum Appearance {
    Night,
    Day,
}

/// The two modes of the widgets' own theme.
#[derive(Clone, Copy, Debug, PartialEq, Eq, Structural)]
pub enum ThemeMode {
    Dark,
    Light,
}

impl Appearance {
    pub const ALL: [Appearance; 2] = [Appearance::Night, Appearance::Day];

    pub open spec fn mode(self) -> ThemeMode {
        match self {
            Appearance::Night => ThemeMode::Dark,
            Appearance::Day => ThemeMode::Light,
        }
    }

    /// The mode the widgets take with this palette.
    pub fn theme_mode(self) -> (r: ThemeMode)
        ensures
            r == self.mode(),
    {
        match self {
            Appearance::Night => ThemeMode::Dark,
            Appearance::Day => ThemeMode::Light,
        }
    }

    pub open spec fn key_text(self) -> Seq<char> {
        match self {
            Appearance::Night => "night"@,
            Appearance::Day => "day"@,
        }
    }

    pub fn key(self) -> (r: &'static str)
        ensures
            r@ == self.key_text(),
    {
        match self {
            Appearance::Night => "night",
            Appearance::Day => "day",
        }
    }

    pub open spec fn label_text(self) -> Seq<char> {
        match self {
            Appearance::Night => "Night"@,
            Appearance::Day => "Day"@,
        }
    }

    pub fn label(self) -> (r: &'static str)
        ensures
            r@ == self.label_text(),
    {
        match self {
            Appearance::Night => "Night",
            Appearance::Day => "Day",
        }
    }

    /// The palette a key stands for; an unknown key is night.
    pub open spec fn of_key(key: Seq<char>) -> Appearance {
        if key == Appearance::Day.key_text() {
            Appearance::Day
        } else {
            Appearance::Night
        }
    }

    pub fn from_key(key: &str) -> (r: Self)
        ensures
            r == Self::of_key(key@),
    {
        if same(key, Appearance::Day.key()) {
            Appearance::Day
        } else {
            Appearance::Night
        }
    }
}

/// A chosen palette is read back from its key as the palette that was chosen.
pub proof fn appearance_survives_its_key(appearance: Appearance)
    ensures
        Appearance::of_key(appearance.key_text()) == appearance,
{
    reveal_strlit("night");
    reveal_strlit("day");
    assert("night"@.len() != "day"@.len());
}

/// The colours the app draws with, by what they are for.
#[derive(Clone, Copy, Debug, PartialEq, Eq, Structural)]
pub enum Colour {
    Background,
    Panel,
    Selection,
    /// The row under the pointer.
    Hover,
    Line,
    Ink,
    Bright,
    Dim,
    Faint,
    Green,
    Amber,
    Blue,
    Red,
    Waveform,
}

impl Colour {
    /// A colour at night and by day, as `0xRRGGBB`.
    pub open spec fn tones(self) -> (u32, u32) {
        match self {
            Colour::Background => (0x0f1211, 0xf6f7f5),
            Colour::Panel => (0x121614, 0xffffff),
            Colour::Selection => (0x161c19, 0xe7ebe7),
            Colour::Hover => (0x27302b, 0xdbe2dc),
            Colour::Line => (0x1e2422, 0xd7dcd8),
            Colour::Ink => (0xd9ddda, 0x2a302c),
            Colour::Bright => (0xeef1ee, 0x11150f),
            Colour::Dim => (0x8a918c, 0x5f665f),
            Colour::Faint => (0x5c645f, 0x8b918b),
            Colour::Green => (0x8fd3a8, 0x2e7d51),
            Colour::Amber => (0xe0b064, 0x9a6b14),
            Colour::Blue => (0x8ab5d8, 0x2d6489),
            Colour::Red => (0xd96a55, 0xb03726),
            Colour::Waveform => (0x39423d, 0xc3cac4),
        }
    }

    pub open spec fn shade(self, appearance: Appearance) -> u32 {
        match appearance {
            Appearance::Night => self.tones().0,
            Appearance::Day => self.tones().1,
        }
    }

    /// The colour in a palette, as `0xRRGGBB`.
    pub fn tone(self, appearance: Appearance) -> (r: u32)
        ensures
            r == self.shade(appearance),
    {
        let (night, day): (u32, u32) = match self {
            Colour::Background => (0x0f1211, 0xf6f7f5),
            Colour::Panel => (0x121614, 0xffffff),
            Colour::Selection => (0x161c19, 0xe7ebe7),
            Colour::Hover => (0x27302b, 0xdbe2dc),
            Colour::Line => (0x1e2422, 0xd7dcd8),
            Colour::Ink => (0xd9ddda, 0x2a302c),
            Colour::Bright => (0xeef1ee, 0x11150f),
            Colour::Dim => (0x8a918c, 0x5f665f),
            Colour::Faint => (0x5c645f, 0x8b918b),
            Colour::Green => (0x8fd3a8, 0x2e7d51),
            Colour::Amber => (0xe0b064, 0x9a6b14),
            Colour::Blue => (0x8ab5d8, 0x2d6489),
            Colour::Red => (0xd96a55, 0xb03726),
            Colour::Waveform => (0x39423d, 0xc3cac4),
        };
        match appearance {
            Appearance::Night => night,
            Appearance::Day => day,
        }
    }
}

/// Every colour is picked anew for each palette, none is reused.
pub proof fn palettes_share_no_colour(colour: Colour)
    ensures
        colour.shade(Appearance::Night) != colour.shade(Appearance::Day),
{
}

/// The colour of a status.
pub open spec fn status_shade(status: ProjectStatus) -> Colour {
    match status {
        ProjectStatus::NeverBackedUp => Colour::Amber,
        ProjectStatus::NotDownloaded => Colour::Faint,
        ProjectStatus::Downloaded => Colour::Green,
        ProjectStatus::Syncing => Colour::Blue,
        ProjectStatus::OutOfSync(SyncDirection::LocalAhead) => Colour::Amber,
        ProjectStatus::OutOfSync(SyncDirection::UpstreamAhead) => Colour::Blue,
        ProjectStatus::Conflicted => Colour::Red,
    }
}

/// The colour of a status. Never backed up is the state most worth acting on,
/// so it warns like work that waits to be copied.
pub fn status_color(status: ProjectStatus) -> (r: Colour)
    ensures
        r == status_shade(status),
{
    match status {
        ProjectStatus::NeverBackedUp => Colour::Amber,
        ProjectStatus::NotDownloaded => Colour::Faint,
        ProjectStatus::Downloaded => Colour::Green,
        ProjectStatus::Syncing => Colour::Blue,
        ProjectStatus::OutOfSync(SyncDirection::LocalAhead) => Colour::Amber,
        ProjectStatus::OutOfSync(SyncDirection::UpstreamAhead) => Colour::Blue,
        ProjectStatus::Conflicted => Colour::Red,
    }
}

} // verus!
