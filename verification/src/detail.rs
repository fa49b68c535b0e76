//! What a project is, as its detail page says it.
use vstd::prelude::*;

use crate::sizes::{project_weight, weight_text};
use crate::text::{copy_optional, count_text, decimal, decimal_text, join, joined, views};

verus! {

/// The whole numbers around a tempo: the greatest at or below it, the least at
/// or above it, and the nearest.
#[derive(Clone, Copy, Debug, PartialEq, Eq, Structural)]
pub struct TempoBounds {
    pub floor: i64,
    pub ceiling: i64,
    pub nearest: i64,
}

/// A tempo: how it is written, and the whole numbers around it where it is a
/// number at all.
#[derive(Debug, PartialEq, Eq)]
pub struct Tempo {
    /// `"175 BPM"`
    pub text: String,
    pub bounds: Option<TempoBounds>,
}

impl Clone for Tempo {
    fn clone(&self) -> (r: Self)
        ensures
            r == *self,
    {
        Tempo { text: self.text.clone(), bounds: self.bounds }
    }
}

fn copy_tempo(tempo: &Option<Tempo>) -> (r: Option<Tempo>)
    ensures
        r == *tempo,
{
    match tempo {
        Some(tempo) => Some(tempo.clone()),
        None => None,
    }
}

/// What a project is, as shown on its detail page.
#[derive(Debug, PartialEq, Eq)]
pub struct ProjectDetail {
    pub tempo: Option<Tempo>,
    pub time_signature: Option<(u32, u32)>,
    /// Human-readable key, eg `"C Phrygian"`.
    pub key: Option<String>,
    pub in_key: bool,
    pub tracks_total: usize,
    pub tracks_midi: usize,
    pub tracks_audio: usize,
    pub tracks_return: usize,
    pub clip_count: usize,
    /// The length in bars to the nearest whole one, where it is at least one.
    pub bars: Option<usize>,
    pub live_version: Option<String>,
    /// Files the project depends on, and how many must travel with it.
    pub files_total: usize,
    pub files_gathered: usize,
}

impl Default for ProjectDetail {
    fn default() -> (r: Self)
        ensures
            r == (ProjectDetail {
                tempo: None,
                time_signature: None,
                key: None,
                in_key: false,
                tracks_total: 0,
                tracks_midi: 0,
                tracks_audio: 0,
                tracks_return: 0,
                clip_count: 0,
                bars: None,
                live_version: None,
                files_total: 0,
                files_gathered: 0,
            }),
    {
        ProjectDetail {
            tempo: None,
            time_signature: None,
            key: None,
            in_key: false,
            tracks_total: 0,
            tracks_midi: 0,
            tracks_audio: 0,
            tracks_return: 0,
            clip_count: 0,
            bars: None,
            live_version: None,
            files_total: 0,
            files_gathered: 0,
        }
    }
}

/// What an Ableton Live Set says of itself.
#[derive(Debug)]
pub struct AbletonFacts {
    pub tempo: Option<Tempo>,
    pub time_signature: Option<(u32, u32)>,
    pub key: Option<String>,
    /// Whether the set is marked as being in that key.
    pub in_key: bool,
    pub tracks_total: usize,
    pub tracks_midi: usize,
    pub tracks_audio: usize,
    pub tracks_return: usize,
    pub clip_count: usize,
    pub bars: Option<usize>,
    pub live_version: Option<String>,
    pub assets_total: usize,
    pub assets_vendorable: usize,
}

/// What an FL Studio project says of itself.
#[derive(Debug)]
pub struct FlStudioFacts {
    pub tempo: Option<Tempo>,
    pub time_signature: Option<(u32, u32)>,
    pub channels: u16,
    pub patterns: usize,
    pub version: Option<String>,
    pub assets_total: usize,
    pub assets_vendored: usize,
}

/// What a DAWproject archive says of itself.
#[derive(Debug)]
pub struct DawprojectFacts {
    pub tempo: Option<Tempo>,
    pub time_signature: Option<(u32, u32)>,
    pub tracks_total: usize,
    pub tracks_notes: usize,
    pub tracks_audio: usize,
    /// Tracks that hold both notes and audio.
    pub tracks_hybrid: usize,
    pub tracks_effect: usize,
    pub clip_count: usize,
    pub bars: Option<usize>,
    pub application: Option<String>,
    pub assets_total: usize,
    pub assets_embedded: usize,
}

/// The summary a version carries, for the formats Auru reads detail from.
#[derive(Debug)]
pub struct ProjectInfo {
    pub ableton: Option<AbletonFacts>,
    pub flstudio: Option<FlStudioFacts>,
    pub dawproject: Option<DawprojectFacts>,
}

impl ProjectInfo {
    /// Whether the track counts can be added up.
    pub open spec fn counts_fit(self) -> bool {
        self.dawproject matches Some(facts) ==> facts.tracks_notes + facts.tracks_hybrid
            <= usize::MAX && facts.tracks_audio + facts.tracks_hybrid <= usize::MAX
    }
}

/// The detail of an FL Studio project. FL has no project-wide key, and its
/// channel rack is not a track list: the channel count is the number a person
/// recognises the project by.
pub open spec fn flstudio_detail(fl: FlStudioFacts) -> ProjectDetail {
    ProjectDetail {
        tempo: fl.tempo,
        time_signature: fl.time_signature,
        key: None,
        in_key: false,
        tracks_total: fl.channels as usize,
        tracks_midi: 0,
        tracks_audio: 0,
        tracks_return: 0,
        clip_count: fl.patterns,
        bars: None,
        live_version: fl.version,
        files_total: fl.assets_total,
        files_gathered: fl.assets_vendored,
    }
}

/// The detail of a DAWproject archive, which has no project-wide key. A hybrid
/// track counts both as a note track and as an audio track.
pub open spec fn dawproject_detail(facts: DawprojectFacts) -> ProjectDetail {
    ProjectDetail {
        tempo: facts.tempo,
        time_signature: facts.time_signature,
        key: None,
        in_key: false,
        tracks_total: facts.tracks_total,
        tracks_midi: (facts.tracks_notes + facts.tracks_hybrid) as usize,
        tracks_audio: (facts.tracks_audio + facts.tracks_hybrid) as usize,
        tracks_return: facts.tracks_effect,
        clip_count: facts.clip_count,
        bars: facts.bars,
        live_version: facts.application,
        files_total: facts.assets_total,
        files_gathered: facts.assets_embedded,
    }
}

/// The detail of an Ableton Live Set.
pub open spec fn ableton_detail(facts: AbletonFacts) -> ProjectDetail {
    ProjectDetail {
        tempo: facts.tempo,
        time_signature: facts.time_signature,
        key: facts.key,
        in_key: facts.key is Some && facts.in_key,
        tracks_total: facts.tracks_total,
        tracks_midi: facts.tracks_midi,
        tracks_audio: facts.tracks_audio,
        tracks_return: facts.tracks_return,
        clip_count: facts.clip_count,
        bars: facts.bars,
        live_version: facts.live_version,
        files_total: facts.assets_total,
        files_gathered: facts.assets_vendorable,
    }
}

/// The detail a summary gives; none for a format Auru reads no detail from.
pub open spec fn detail_of(info: ProjectInfo) -> Option<ProjectDetail> {
    match (info.flstudio, info.dawproject, info.ableton) {
        (Some(fl), _, _) => Some(flstudio_detail(fl)),
        (None, Some(facts), _) => Some(dawproject_detail(facts)),
        (None, None, Some(facts)) => Some(ableton_detail(facts)),
        (None, None, None) => None,
    }
}

/// A count of things.
pub open spec fn plural_text(count: nat, noun: Seq<char>) -> Seq<char> {
    if count == 1 {
        decimal(count) + " "@ + noun
    } else {
        decimal(count) + " "@ + noun + "s"@
    }
}

/// A count of things.
pub fn plural(count: usize, noun: &str) -> (r: String)
    ensures
        r@ == plural_text(count as nat, noun@),
{
    let mut out = count_text(count);
    out.append(" ");
    out.append(noun);
    if count != 1 {
        out.append("s");
    }
    out
}

/// Parts of a line, or a dash for no part.
pub open spec fn dashed(parts: Seq<Seq<char>>) -> Seq<char> {
    if parts.len() == 0 {
        "—"@
    } else {
        joined(parts, " · "@)
    }
}

/// Parts of a line, or a dash for no part.
pub fn join_or_dash(parts: Vec<String>) -> (r: String)
    ensures
        r@ == dashed(views(parts@)),
{
    assert(views(parts@).len() == parts@.len());
    if parts.len() == 0 {
        "—".to_owned()
    } else {
        join(&parts, " · ")
    }
}

/// A part that is there on a condition.
pub open spec fn part_if(condition: bool, part: Seq<char>) -> Seq<Seq<char>> {
    if condition {
        seq![part]
    } else {
        Seq::empty()
    }
}

/// Put a part behind the others on a condition.
fn add_part(parts: &mut Vec<String>, condition: bool, part: String)
    ensures
        views(final(parts)@) == views(old(parts)@) + part_if(condition, part@),
{
    let ghost before = views(parts@);
    if condition {
        parts.push(part);
        assert(views(parts@) =~= before + seq![part@]);
    } else {
        assert(before + Seq::<Seq<char>>::empty() =~= before);
    }
}

/// A count with a word behind it.
fn counted(count: usize, words: &str) -> (r: String)
    ensures
        r@ == decimal(count as nat) + words@,
{
    let mut out = count_text(count);
    out.append(words);
    out
}

impl ProjectDetail {
    /// Read the detail out of a version's project summary.
    pub fn from_project_info(info: &ProjectInfo) -> (r: Option<Self>)
        requires
            info.counts_fit(),
        ensures
            r == detail_of(*info),
    {
        if let Some(fl) = &info.flstudio {
            return Some(Self::from_flstudio(fl));
        }
        if let Some(facts) = &info.dawproject {
            return Some(Self::from_dawproject(facts));
        }
        match &info.ableton {
            None => None,
            Some(facts) => Some(
                ProjectDetail {
                    tempo: copy_tempo(&facts.tempo),
                    time_signature: facts.time_signature,
                    key: copy_optional(&facts.key),
                    in_key: facts.key.is_some() && facts.in_key,
                    tracks_total: facts.tracks_total,
                    tracks_midi: facts.tracks_midi,
                    tracks_audio: facts.tracks_audio,
                    tracks_return: facts.tracks_return,
                    clip_count: facts.clip_count,
                    bars: facts.bars,
                    live_version: copy_optional(&facts.live_version),
                    files_total: facts.assets_total,
                    files_gathered: facts.assets_vendorable,
                },
            ),
        }
    }

    fn from_flstudio(fl: &FlStudioFacts) -> (r: Self)
        ensures
            r == flstudio_detail(*fl),
    {
        ProjectDetail {
            tempo: copy_tempo(&fl.tempo),
            time_signature: fl.time_signature,
            key: None,
            in_key: false,
            tracks_total: fl.channels as usize,
            tracks_midi: 0,
            tracks_audio: 0,
            tracks_return: 0,
            clip_count: fl.patterns,
            bars: None,
            live_version: copy_optional(&fl.version),
            files_total: fl.assets_total,
            files_gathered: fl.assets_vendored,
        }
    }

    fn from_dawproject(facts: &DawprojectFacts) -> (r: Self)
        requires
            facts.tracks_notes + facts.tracks_hybrid <= usize::MAX,
            facts.tracks_audio + facts.tracks_hybrid <= usize::MAX,
        ensures
            r == dawproject_detail(*facts),
    {
        ProjectDetail {
            tempo: copy_tempo(&facts.tempo),
            time_signature: facts.time_signature,
            key: None,
            in_key: false,
            tracks_total: facts.tracks_total,
            tracks_midi: facts.tracks_notes + facts.tracks_hybrid,
            tracks_audio: facts.tracks_audio + facts.tracks_hybrid,
            tracks_return: facts.tracks_effect,
            clip_count: facts.clip_count,
            bars: facts.bars,
            live_version: copy_optional(&facts.application),
            files_total: facts.assets_total,
            files_gathered: facts.assets_embedded,
        }
    }

    /// The tempo and the signature, as far as the project declared them.
    pub open spec fn tempo_parts(self) -> Seq<Seq<char>> {
        (match self.tempo {
            Some(tempo) => seq![tempo.text@],
            None => Seq::empty(),
        }) + (match self.time_signature {
            Some((numerator, denominator)) => seq![
                decimal(numerator as nat) + "/"@ + decimal(denominator as nat),
            ],
            None => Seq::empty(),
        })
    }

    /// `"175 BPM · 4/4"`, omitting whatever the project did not declare.
    pub fn tempo_line(&self) -> (r: String)
        ensures
            r@ == dashed(self.tempo_parts()),
    {
        let mut parts: Vec<String> = Vec::new();
        assert(views(parts@) =~= Seq::<Seq<char>>::empty());
        if let Some(tempo) = &self.tempo {
            parts.push(tempo.text.clone());
            assert(views(parts@) =~= seq![tempo.text@]);
        }
        if let Some((numerator, denominator)) = self.time_signature {
            let ghost before = views(parts@);
            let mut signature = decimal_text(numerator as u128);
            signature.append("/");
            signature.append(decimal_text(denominator as u128).as_str());
            let ghost part = signature@;
            parts.push(signature);
            assert(views(parts@) =~= before + seq![part]);
        }
        assert(views(parts@) =~= self.tempo_parts());
        join_or_dash(parts)
    }

    pub open spec fn key_text(self) -> Seq<char> {
        match self.key {
            Some(key) => if self.in_key {
                key@ + " · in key"@
            } else {
                key@
            },
            None => "—"@,
        }
    }

    pub fn key_line(&self) -> (r: String)
        ensures
            r@ == self.key_text(),
    {
        match &self.key {
            Some(key) => {
                let mut out = key.clone();
                if self.in_key {
                    out.append(" · in key");
                }
                out
            },
            None => "—".to_owned(),
        }
    }

    pub open spec fn tracks_parts(self) -> Seq<Seq<char>> {
        part_if(self.tracks_total > 0, plural_text(self.tracks_total as nat, "track"@)) + part_if(
            self.tracks_total > 0 && self.tracks_midi > 0,
            decimal(self.tracks_midi as nat) + " MIDI"@,
        ) + part_if(
            self.tracks_total > 0 && self.tracks_audio > 0,
            decimal(self.tracks_audio as nat) + " audio"@,
        ) + part_if(
            self.tracks_total > 0 && self.tracks_return > 0,
            decimal(self.tracks_return as nat) + " returns"@,
        )
    }

    /// `"16 tracks · 9 MIDI · 4 audio · 2 returns"`.
    pub fn tracks_line(&self) -> (r: String)
        ensures
            r@ == dashed(self.tracks_parts()),
    {
        let some = self.tracks_total > 0;
        let mut parts: Vec<String> = Vec::new();
        assert(views(parts@) =~= Seq::<Seq<char>>::empty());
        add_part(&mut parts, some, plural(self.tracks_total, "track"));
        add_part(&mut parts, some && self.tracks_midi > 0, counted(self.tracks_midi, " MIDI"));
        add_part(&mut parts, some && self.tracks_audio > 0, counted(self.tracks_audio, " audio"));
        add_part(&mut parts, some && self.tracks_return > 0, counted(self.tracks_return, " returns"));
        assert(views(parts@) =~= self.tracks_parts());
        join_or_dash(parts)
    }

    pub open spec fn length_parts(self) -> Seq<Seq<char>> {
        (match self.bars {
            Some(bars) => seq![plural_text(bars as nat, "bar"@)],
            None => Seq::empty(),
        }) + part_if(self.clip_count > 0, plural_text(self.clip_count as nat, "clip"@))
    }

    /// `"88 bars · 53 clips"`.
    pub fn length_line(&self) -> (r: String)
        ensures
            r@ == dashed(self.length_parts()),
    {
        let mut parts: Vec<String> = Vec::new();
        assert(views(parts@) =~= Seq::<Seq<char>>::empty());
        if let Some(bars) = self.bars {
            add_part(&mut parts, true, plural(bars, "bar"));
        }
        add_part(&mut parts, self.clip_count > 0, plural(self.clip_count, "clip"));
        assert(views(parts@) =~= self.length_parts());
        join_or_dash(parts)
    }

    pub open spec fn made_with_text(self) -> Seq<char> {
        match self.live_version {
            Some(version) => version@,
            None => "Ableton Live"@,
        }
    }

    pub fn made_with(&self) -> (r: String)
        ensures
            r@ == self.made_with_text(),
    {
        match &self.live_version {
            Some(version) => version.clone(),
            None => "Ableton Live".to_owned(),
        }
    }

    pub open spec fn files_text(self) -> Seq<char> {
        if self.files_total == 0 {
            "—"@
        } else if self.files_gathered == 0 {
            plural_text(self.files_total as nat, "file"@)
        } else {
            plural_text(self.files_total as nat, "file"@) + " · "@ + decimal(
                self.files_gathered as nat,
            ) + " gathered in"@
        }
    }

    /// `"27 files · 5 gathered in"`.
    pub fn files_line(&self) -> (r: String)
        ensures
            r@ == self.files_text(),
    {
        if self.files_total == 0 {
            return "—".to_owned();
        }
        let mut out = plural(self.files_total, "file");
        if self.files_gathered > 0 {
            out.append(" · ");
            out.append(count_text(self.files_gathered).as_str());
            out.append(" gathered in");
        }
        out
    }
}

/// The files line of an optional detail; nothing for none.
pub open spec fn inventory_text(detail: Option<ProjectDetail>) -> Seq<char> {
    match detail {
        Some(detail) => detail.files_text(),
        None => Seq::empty(),
    }
}

/// The files line of an optional detail.
pub fn inventory(detail: &Option<ProjectDetail>) -> (r: String)
    ensures
        r@ == inventory_text(*detail),
{
    match detail {
        Some(detail) => detail.files_line(),
        None => String::new(),
    }
}

/// A rough size for the library row: the project file's own weight, and the
/// files it depends on counted beside it.
pub open spec fn size_text(bytes: nat, detail: Option<ProjectDetail>) -> Seq<char> {
    match detail {
        Some(detail) => if detail.files_total > 0 {
            weight_text(bytes) + " · "@ + detail.files_text()
        } else {
            weight_text(bytes)
        },
        None => weight_text(bytes),
    }
}

/// A rough size for the library row.
pub fn describe_size(snapshot_bytes: u64, detail: &Option<ProjectDetail>) -> (r: String)
    ensures
        r@ == size_text(snapshot_bytes as nat, *detail),
{
    let mut out = project_weight(snapshot_bytes);
    if let Some(detail) = detail {
        if detail.files_total > 0 {
            out.append(" · ");
            out.append(detail.files_line().as_str());
        }
    }
    out
}

/// Whether this computer has a plugin.
#[derive(Clone, Copy, Debug, PartialEq, Eq, Structural)]
pub enum PluginAvailability {
    Installed,
    BundledWithDaw,
    NotOnThisComputer,
    Unknown,
}

/// A plugin a project uses, looked up on this computer.
#[derive(Debug)]
pub struct ResolvedPlugin {
    pub name: String,
    pub vendor: String,
    /// `"VST2"`, `"VST3"`, `"AU"`.
    pub format: String,
    pub instances: usize,
    pub availability: PluginAvailability,
    /// Where the maker distributes it, when the registry knows.
    pub link: Option<String>,
}

/// A plugin the project needs that this computer does not have.
#[derive(Debug, PartialEq, Eq)]
pub struct MissingPlugin {
    pub name: String,
    pub vendor: String,
    /// `"VST2"`, `"VST3"`, `"AU"`.
    pub format: String,
    pub instances: usize,
    /// Where the maker distributes it, when the registry knows.
    pub link: Option<String>,
}

/// The line shown beneath a missing-plugin list.
pub const PLUGIN_SETTINGS_REASSURANCE: &'static str =
    "Your settings for these are saved inside the project. They come back exactly as you left them once the plugin is installed and authorized on this computer.";

impl MissingPlugin {
    pub open spec fn of(plugin: ResolvedPlugin) -> MissingPlugin {
        MissingPlugin {
            name: plugin.name,
            vendor: plugin.vendor,
            format: plugin.format,
            instances: plugin.instances,
            link: plugin.link,
        }
    }

    /// `None` for anything but a plugin known to be absent, so only what needs
    /// attention reaches the screen.
    pub fn from_resolved(plugin: &ResolvedPlugin) -> (r: Option<Self>)
        ensures
            r == (if plugin.availability is NotOnThisComputer {
                Some(Self::of(*plugin))
            } else {
                None
            }),
    {
        if plugin.availability != PluginAvailability::NotOnThisComputer {
            return None;
        }
        Some(
            MissingPlugin {
                name: plugin.name.clone(),
                vendor: plugin.vendor.clone(),
                format: plugin.format.clone(),
                instances: plugin.instances,
                link: copy_optional(&plugin.link),
            },
        )
    }

    pub open spec fn detail_text(self) -> Seq<char> {
        joined(
            part_if(self.vendor@.len() > 0, self.vendor@) + seq![
                self.format@,
                (if self.instances == 1 {
                    "used once"@
                } else {
                    "used "@ + decimal(self.instances as nat) + " times"@
                }),
            ],
            " · "@,
        )
    }

    /// `"Xfer Records · VST3 · used 7 times"`.
    pub fn detail_line(&self) -> (r: String)
        ensures
            r@ == self.detail_text(),
    {
        let mut parts: Vec<String> = Vec::new();
        assert(views(parts@) =~= Seq::<Seq<char>>::empty());
        add_part(&mut parts, !self.vendor.as_str().is_empty(), self.vendor.clone());
        add_part(&mut parts, true, self.format.clone());
        let uses = if self.instances == 1 {
            "used once".to_owned()
        } else {
            let mut out = "used ".to_owned();
            out.append(count_text(self.instances).as_str());
            out.append(" times");
            out
        };
        let ghost last = uses@;
        add_part(&mut parts, true, uses);
        assert(views(parts@) =~= part_if(self.vendor@.len() > 0, self.vendor@) + seq![
            self.format@,
            last,
        ]);
        join(&parts, " · ")
    }
}

/// The plugins that are absent, in order.
pub open spec fn absent(plugins: Seq<ResolvedPlugin>) -> Seq<MissingPlugin>
    decreases plugins.len(),
{
    if plugins.len() == 0 {
        Seq::empty()
    } else {
        let before = absent(plugins.drop_last());
        if plugins.last().availability is NotOnThisComputer {
            before.push(MissingPlugin::of(plugins.last()))
        } else {
            before
        }
    }
}

/// Plugins this computer does not have, out of those a project uses; none for
/// a project whose plugins cannot be read.
pub fn missing_plugins_for(plugins: &Option<Vec<ResolvedPlugin>>) -> (r: Vec<MissingPlugin>)
    ensures
        r@ == (match *plugins {
            Some(list) => absent(list@),
            None => Seq::empty(),
        }),
{
    let mut out: Vec<MissingPlugin> = Vec::new();
    if let Some(list) = plugins {
        let mut i: usize = 0;
        while i < list.len()
            invariant
                i <= list@.len(),
                out@ == absent(list@.take(i as int)),
            decreases list@.len() - i,
        {
            assert(list@.take(i + 1).drop_last() == list@.take(i as int));
            if let Some(missing) = MissingPlugin::from_resolved(&list[i]) {
                out.push(missing);
            }
            i = i + 1;
        }
        assert(list@.take(i as int) == list@);
    }
    out
}

/// A tempo constraint of the library filter bar.
#[derive(Clone, Copy, Debug, PartialEq, Eq, Structural)]
pub enum BpmFilter {
    Range { min: u16, max: u16 },
    Exact(u16),
}

impl BpmFilter {
    /// Whether a tempo passes: within the range, or rounding to the number. A
    /// project without a tempo never passes.
    pub open spec fn admits(self, tempo: Option<TempoBounds>) -> bool {
        match tempo {
            None => false,
            Some(tempo) => match self {
                BpmFilter::Range { min, max } => min <= tempo.floor && tempo.ceiling <= max,
                BpmFilter::Exact(bpm) => tempo.nearest == bpm,
            },
        }
    }

    pub fn matches(self, tempo: Option<TempoBounds>) -> (r: bool)
        ensures
            r == self.admits(tempo),
    {
        match tempo {
            None => false,
            Some(tempo) => match self {
                BpmFilter::Range { min, max } => min as i64 <= tempo.floor && tempo.ceiling
                    <= max as i64,
                BpmFilter::Exact(bpm) => tempo.nearest == bpm as i64,
            },
        }
    }

    pub open spec fn label_text(self) -> Seq<char> {
        match self {
            BpmFilter::Range { min, max } => decimal(min as nat) + "–"@ + decimal(max as nat),
            BpmFilter::Exact(bpm) => decimal(bpm as nat),
        }
    }

    pub fn label(self) -> (r: String)
        ensures
            r@ == self.label_text(),
    {
        match self {
            BpmFilter::Range { min, max } => {
                let mut out = decimal_text(min as u128);
                out.append("–");
                out.append(decimal_text(max as u128).as_str());
                out
            },
            BpmFilter::Exact(bpm) => decimal_text(bpm as u128),
        }
    }
}

} // verus!
