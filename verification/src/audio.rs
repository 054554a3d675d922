//! The capture sources the audio server offers, which one a dictation
//! records from, and the recorder's command line and PID file.
use serde_json::Value;
use vstd::prelude::*;

use crate::literal::{decimal_string, parse_i32, parsed_i32, signed_decimal};
use crate::placeholder::opt_view;
use crate::text::{str_eq, trim, trim_string};

verus! {

/// Where the recording is written.
pub const RECORDING_PATH: &'static str = "/tmp/rhisper.wav";

/// One capture source offered by the audio server.
#[derive(Debug, Clone, PartialEq, Eq)]
pub struct CaptureSource {
    /// The identifier `audio-device` expects.
    pub name: String,
    /// Human-readable label, for listings.
    pub description: String,
    pub is_default: bool,
    /// Numeric aliases `pw-record --target` also accepts.
    pub aliases: Vec<String>,
}

/// Whether `device` names source `s`, by name or by a numeric alias.
pub open spec fn names_source(s: CaptureSource, device: Seq<char>) -> bool {
    s.name@ == device || exists|i: int| 0 <= i < s.aliases@.len() && #[trigger] s.aliases@[i]@ == device
}

impl CaptureSource {
    /// Whether `device` names this source, by name or by a numeric alias.
    pub fn matches(&self, device: &str) -> (r: bool)
        ensures
            r == names_source(*self, device@),
    {
        if str_eq(self.name.as_str(), device) {
            return true;
        }
        let mut i: usize = 0;
        while i < self.aliases.len()
            invariant
                i <= self.aliases@.len(),
                forall|k: int| 0 <= k < i ==> #[trigger] self.aliases@[k]@ != device@,
            decreases self.aliases.len() - i,
        {
            if str_eq(self.aliases[i].as_str(), device) {
                return true;
            }
            i = i + 1;
        }
        false
    }
}

/// One entry of a PipeWire metadata object.
#[derive(Debug, Clone, PartialEq, Eq)]
pub struct PwMetadataEntry {
    /// `key`, when it is a string.
    pub key: Option<String>,
    /// `value.name`, when it is a string.
    pub value_name: Option<String>,
}

/// What the source listing reads of one object of a `pw-dump`.
#[derive(Debug, Clone, PartialEq, Eq)]
pub struct PwObject {
    /// `type`, when it is a string.
    pub kind: Option<String>,
    /// `props."metadata.name"`, when it is a string.
    pub metadata_name: Option<String>,
    /// The entries of `metadata`, when that is an array.
    pub metadata: Vec<PwMetadataEntry>,
    /// `info.props."media.class"`, when it is a string.
    pub media_class: Option<String>,
    /// `info.props."node.name"`, when it is a string.
    pub node_name: Option<String>,
    /// `info.props."node.description"`, when it is a string.
    pub node_description: Option<String>,
    /// `id`, when it is an integer.
    pub id: Option<i64>,
    /// `info.props."object.serial"`, when it is an integer.
    pub serial: Option<i64>,
}

/// `o` holds the text `t`.
pub open spec fn has_text(o: Option<String>, t: Seq<char>) -> bool {
    o matches Some(s) && s@ == t
}

/// The metadata entries of the objects named `default`, in order.
pub open spec fn default_entries(objs: Seq<PwObject>) -> Seq<PwMetadataEntry>
    decreases objs.len(),
{
    if objs.len() == 0 {
        Seq::empty()
    } else {
        default_entries(objs.drop_last()) + if has_text(objs.last().metadata_name, "default"@) {
            objs.last().metadata@
        } else {
            Seq::empty()
        }
    }
}

/// The first entry for the default audio source.
pub open spec fn first_source_entry(es: Seq<PwMetadataEntry>) -> Option<PwMetadataEntry>
    decreases es.len(),
{
    if es.len() == 0 {
        None
    } else if has_text(es[0].key, "default.audio.source"@) {
        Some(es[0])
    } else {
        first_source_entry(es.drop_first())
    }
}

/// The name of the default capture source, or empty when the dump names
/// none.
pub open spec fn default_source_of(objs: Seq<PwObject>) -> Seq<char> {
    match first_source_entry(default_entries(objs)) {
        Some(m) => match m.value_name {
            Some(n) => n@,
            None => Seq::empty(),
        },
        None => Seq::empty(),
    }
}

/// An audio source node with a name.
pub open spec fn is_capture_node(o: PwObject) -> bool {
    has_text(o.kind, "PipeWire:Interface:Node"@) && has_text(o.media_class, "Audio/Source"@)
        && o.node_name is Some
}

/// The capture nodes, in order.
pub open spec fn capture_nodes(objs: Seq<PwObject>) -> Seq<PwObject>
    decreases objs.len(),
{
    if objs.len() == 0 {
        Seq::empty()
    } else {
        capture_nodes(objs.drop_last()) + if is_capture_node(objs.last()) {
            seq![objs.last()]
        } else {
            Seq::empty()
        }
    }
}

/// The numeric aliases of a node: its id, then its serial.
pub open spec fn aliases_of(o: PwObject) -> Seq<Seq<char>> {
    (match o.id {
        Some(n) => seq![signed_decimal(n as int)],
        None => Seq::empty(),
    }) + match o.serial {
        Some(n) => seq![signed_decimal(n as int)],
        None => Seq::empty(),
    }
}

/// `s` is the source listed for node `o` when `default` names the default
/// source.
pub open spec fn lists_node(s: CaptureSource, o: PwObject, default: Seq<char>) -> bool {
    &&& s.name@ == o.node_name->0@
    &&& s.description@ == (match o.node_description {
        Some(d) => d@,
        None => o.node_name->0@,
    })
    &&& s.is_default == (s.name@ == default)
    &&& s.aliases@.map_values(|a: String| a@) == aliases_of(o)
}

proof fn lemma_first_source_entry_is(es: Seq<PwMetadataEntry>, k: int)
    requires
        0 <= k <= es.len(),
        k < es.len() ==> has_text(es[k].key, "default.audio.source"@),
        forall|j: int| 0 <= j < k ==> !has_text(#[trigger] es[j].key, "default.audio.source"@),
    ensures
        first_source_entry(es) == if k < es.len() {
            Some(es[k])
        } else {
            None
        },
    decreases es.len(),
{
    if es.len() > 0 && k > 0 {
        assert(!has_text(es[0].key, "default.audio.source"@));
        assert forall|j: int| 0 <= j < k - 1 implies !has_text(#[trigger] es.drop_first()[j].key, "default.audio.source"@) by {
            assert(es.drop_first()[j] == es[j + 1]);
        }
        lemma_first_source_entry_is(es.drop_first(), k - 1);
        if k < es.len() {
            assert(es.drop_first()[k - 1] == es[k]);
        }
    }
}

fn copy_text(o: &Option<String>) -> (r: Option<String>)
    ensures
        r == *o,
{
    match o {
        Some(s) => Some(s.clone()),
        None => None,
    }
}

fn holds_text(o: &Option<String>, t: &str) -> (r: bool)
    ensures
        r == has_text(*o, t@),
{
    match o {
        Some(s) => str_eq(s.as_str(), t),
        None => false,
    }
}

/// The name of the default capture source the objects name, or empty.
fn default_source(objs: &Vec<PwObject>) -> (r: String)
    ensures
        r@ == default_source_of(objs@),
{
    let mut es: Vec<PwMetadataEntry> = Vec::new();
    let mut i: usize = 0;
    proof {
        assert(objs@.take(0) =~= Seq::<PwObject>::empty());
    }
    while i < objs.len()
        invariant
            i <= objs@.len(),
            es@ == default_entries(objs@.take(i as int)),
        decreases objs.len() - i,
    {
        let ghost before = es@;
        if holds_text(&objs[i].metadata_name, "default") {
            let ms = &objs[i].metadata;
            let mut j: usize = 0;
            while j < ms.len()
                invariant
                    j <= ms@.len(),
                    es@ == before + ms@.take(j as int),
                decreases ms.len() - j,
            {
                es.push(PwMetadataEntry { key: copy_text(&ms[j].key), value_name: copy_text(&ms[j].value_name) });
                assert(ms@.take(j + 1) =~= ms@.take(j as int).push(ms@[j as int]));
                assert(es@ =~= before + ms@.take(j + 1));
                j = j + 1;
            }
            assert(ms@.take(ms@.len() as int) =~= ms@);
        }
        proof {
            let t = objs@.take(i + 1);
            assert(t.drop_last() =~= objs@.take(i as int));
            assert(t.last() == objs@[i as int]);
            assert(es@ =~= default_entries(t));
        }
        i = i + 1;
    }
    proof {
        assert(objs@.take(objs@.len() as int) =~= objs@);
    }
    let mut k: usize = 0;
    while k < es.len()
        invariant
            k <= es@.len(),
            es@ == default_entries(objs@),
            forall|j: int| 0 <= j < k ==> !has_text(#[trigger] es@[j].key, "default.audio.source"@),
        decreases es.len() - k,
    {
        if holds_text(&es[k].key, "default.audio.source") {
            proof {
                lemma_first_source_entry_is(es@, k as int);
            }
            return match &es[k].value_name {
                Some(n) => n.clone(),
                None => String::new(),
            };
        }
        k = k + 1;
    }
    proof {
        lemma_first_source_entry_is(es@, k as int);
    }
    String::new()
}

/// The capture sources a `pw-dump` lists: every audio source node with a
/// name, in order, with its description (the name when it has none), its id
/// and serial as aliases, and whether it is the default source.
pub fn capture_sources_from(objs: &Vec<PwObject>) -> (r: Vec<CaptureSource>)
    ensures
        r@.len() == capture_nodes(objs@).len(),
        forall|i: int|
            0 <= i < r@.len() ==> lists_node(
                #[trigger] r@[i],
                capture_nodes(objs@)[i],
                default_source_of(objs@),
            ),
{
    let default = default_source(objs);
    let mut r: Vec<CaptureSource> = Vec::new();
    let mut i: usize = 0;
    proof {
        assert(objs@.take(0) =~= Seq::<PwObject>::empty());
    }
    while i < objs.len()
        invariant
            i <= objs@.len(),
            default@ == default_source_of(objs@),
            r@.len() == capture_nodes(objs@.take(i as int)).len(),
            forall|k: int|
                0 <= k < r@.len() ==> lists_node(
                    #[trigger] r@[k],
                    capture_nodes(objs@.take(i as int))[k],
                    default_source_of(objs@),
                ),
        decreases objs.len() - i,
    {
        let o = &objs[i];
        let ghost before = capture_nodes(objs@.take(i as int));
        proof {
            let t = objs@.take(i + 1);
            assert(t.drop_last() =~= objs@.take(i as int));
            assert(t.last() == objs@[i as int]);
        }
        if holds_text(&o.kind, "PipeWire:Interface:Node") && holds_text(&o.media_class, "Audio/Source") {
            match &o.node_name {
                Some(name) => {
                    let description = match &o.node_description {
                        Some(d) => d.clone(),
                        None => name.clone(),
                    };
                    let mut aliases: Vec<String> = Vec::new();
                    match o.id {
                        Some(n) => aliases.push(decimal_string(n)),
                        None => {},
                    }
                    match o.serial {
                        Some(n) => aliases.push(decimal_string(n)),
                        None => {},
                    }
                    proof {
                        assert(aliases@.map_values(|a: String| a@) =~= aliases_of(*o));
                    }
                    let is_default = str_eq(name.as_str(), default.as_str());
                    r.push(CaptureSource { name: name.clone(), description, is_default, aliases });
                    proof {
                        assert(capture_nodes(objs@.take(i + 1)) =~= before.push(*o));
                    }
                },
                None => {
                    proof {
                        assert(capture_nodes(objs@.take(i + 1)) =~= before);
                    }
                },
            }
        } else {
            proof {
                assert(capture_nodes(objs@.take(i + 1)) =~= before);
            }
        }
        i = i + 1;
    }
    proof {
        assert(objs@.take(objs@.len() as int) =~= objs@);
    }
    r
}

/// The objects of a `pw-dump` output, as the source listing reads them:
/// `None` when `dump` is not a JSON array of values.
pub uninterp spec fn pw_objects_of(dump: Seq<u8>) -> Option<Seq<PwObject>>;

/// `serde_json::from_slice` reads `dump` as a JSON array of values; each
/// value is turned into a [`PwObject`] by picking its string and integer
/// members with `Value::pointer`, `as_str` and `as_i64`, and the entries of
/// its `metadata` array with `as_array`. The contract names the result and
/// says that a dump serde_json rejects gives an error; it says nothing more.
#[verifier::external_body]
fn pw_dump_objects(dump: &[u8]) -> (r: Result<Vec<PwObject>, String>)
    ensures
        match r {
            Ok(v) => pw_objects_of(dump@) == Some(v@),
            Err(_) => pw_objects_of(dump@) is None,
        },
{
    let values: Vec<Value> = serde_json::from_slice(dump).map_err(|e| format!("failed to parse pw-dump output: {e}"))?;
    let s = |v: &Value, p| v.pointer(p).and_then(Value::as_str).map(String::from);
    Ok(values.iter().map(|o| PwObject {
        kind: s(o, "/type"), metadata_name: s(o, "/props/metadata.name"),
        metadata: o["metadata"].as_array().into_iter().flatten().map(|m| PwMetadataEntry { key: s(m, "/key"), value_name: s(m, "/value/name") }).collect(),
        media_class: s(o, "/info/props/media.class"), node_name: s(o, "/info/props/node.name"), node_description: s(o, "/info/props/node.description"),
        id: o.pointer("/id").and_then(Value::as_i64), serial: o.pointer("/info/props/object.serial").and_then(Value::as_i64),
    }).collect())
}

/// Lists the capture sources of a `pw-dump` output: an error for a dump
/// that is not a JSON array, else every audio source node with a name, as
/// [`capture_sources_from`] lists them.
pub fn parse_capture_sources(dump: &[u8]) -> (r: Result<Vec<CaptureSource>, String>)
    ensures
        r is Err <==> pw_objects_of(dump@) is None,
        pw_objects_of(dump@) matches Some(objs) ==> (r matches Ok(v) && v@.len() == capture_nodes(objs).len()
            && forall|i: int|
            0 <= i < v@.len() ==> lists_node(#[trigger] v@[i], capture_nodes(objs)[i], default_source_of(objs))),
{
    match pw_dump_objects(dump) {
        Ok(objs) => Ok(capture_sources_from(&objs)),
        Err(e) => Err(e),
    }
}

/// What could be learned about the configured capture device.
#[derive(Debug, Clone, PartialEq, Eq)]
pub struct DeviceInfo {
    /// `None` when presence could not be determined: the audio server did
    /// not respond, or the platform cannot enumerate sources.
    pub available: Option<bool>,
    /// Human-readable name of the source that will actually be recorded
    /// from. `None` when unknown.
    pub description: Option<String>,
}

impl Default for DeviceInfo {
    /// Nothing known.
    fn default() -> (r: DeviceInfo)
        ensures
            r.available is None && r.description is None,
    {
        DeviceInfo { available: None, description: None }
    }
}

/// Whether `s` is the source a recording from `device` uses: the default
/// source for an empty `device`, else the one `device` names.
pub open spec fn selects(s: CaptureSource, device: Seq<char>) -> bool {
    if device.len() == 0 {
        s.is_default
    } else {
        names_source(s, device)
    }
}

/// The first source a recording from `device` would use.
pub open spec fn source_for(sources: Seq<CaptureSource>, device: Seq<char>) -> Option<CaptureSource>
    decreases sources.len(),
{
    if sources.len() == 0 {
        None
    } else if selects(sources[0], device) {
        Some(sources[0])
    } else {
        source_for(sources.drop_first(), device)
    }
}

proof fn lemma_source_for_is(sources: Seq<CaptureSource>, device: Seq<char>, k: int)
    requires
        0 <= k <= sources.len(),
        k < sources.len() ==> selects(sources[k], device),
        forall|j: int| 0 <= j < k ==> !selects(#[trigger] sources[j], device),
    ensures
        source_for(sources, device) == if k < sources.len() {
            Some(sources[k])
        } else {
            None
        },
    decreases sources.len(),
{
    if sources.len() > 0 && k > 0 {
        assert(!selects(sources[0], device));
        assert forall|j: int| 0 <= j < k - 1 implies !selects(#[trigger] sources.drop_first()[j], device) by {
            assert(sources.drop_first()[j] == sources[j + 1]);
        }
        lemma_source_for_is(sources.drop_first(), device, k - 1);
        if k < sources.len() {
            assert(sources.drop_first()[k - 1] == sources[k]);
        }
    }
}

/// Presence and human-readable name of `device`, given the sources the
/// audio server lists (`None` when they could not be listed).
///
/// An empty `device` means the system default, whose description is worth
/// resolving too: it answers "which microphone is this recording from".
/// An empty `device` is always available: there is nothing to miss.
pub fn inspect_device(device: &str, sources: Option<&Vec<CaptureSource>>) -> (r: DeviceInfo)
    ensures
        match sources {
            None => r.available is None && r.description is None,
            Some(ss) => {
                &&& r.available == Some(device@.len() == 0 || source_for(ss@, device@) is Some)
                &&& opt_view(r.description) == match source_for(ss@, device@) {
                    Some(s) => Some(s.description@),
                    None => None,
                }
            },
        },
{
    match sources {
        None => DeviceInfo { available: None, description: None },
        Some(ss) => {
            let empty = device.is_empty();
            let mut i: usize = 0;
            while i < ss.len()
                invariant
                    i <= ss@.len(),
                    sources == Some(ss),
                    empty == (device@.len() == 0),
                    forall|j: int| 0 <= j < i ==> !selects(#[trigger] ss@[j], device@),
                decreases ss.len() - i,
            {
                let s = &ss[i];
                let hit = if empty {
                    s.is_default
                } else {
                    s.matches(device)
                };
                if hit {
                    proof {
                        lemma_source_for_is(ss@, device@, i as int);
                    }
                    return DeviceInfo { available: Some(true), description: Some(s.description.clone()) };
                }
                i = i + 1;
            }
            proof {
                lemma_source_for_is(ss@, device@, i as int);
            }
            DeviceInfo { available: Some(empty), description: None }
        },
    }
}

/// The name of the microphone in use, for `${device}` in a status: the
/// source's description when known, else the configured device, else
/// `system default`.
pub fn device_label(device: &str, info: &DeviceInfo) -> (r: String)
    ensures
        r@ == match info.description {
            Some(d) => d@,
            None => if device@.len() > 0 {
                device@
            } else {
                "system default"@
            },
        },
{
    match &info.description {
        Some(d) => d.clone(),
        None => if !device.is_empty() {
            String::from_str(device)
        } else {
            String::from_str("system default")
        },
    }
}

/// Where a recording goes.
#[derive(Debug, Clone, PartialEq, Eq)]
pub enum RecordingTarget {
    /// The system default source; nothing else was asked for.
    SystemDefault,
    /// The configured device.
    Device(String),
    /// The configured device is missing; the system default stands in.
    FallbackToDefault,
    /// The configured device is missing and falling back is switched off.
    Refuse,
}

/// Where a recording goes: an empty `device` records from the system
/// default; a device the audio server reports missing is replaced by the
/// default when `fallback` allows it and refused otherwise; any other
/// device, including one whose presence is unknown, is recorded from.
pub fn recording_target(device: &str, fallback: bool, info: &DeviceInfo) -> (r: RecordingTarget)
    ensures
        device@.len() == 0 ==> r == RecordingTarget::SystemDefault,
        device@.len() > 0 && info.available == Some(false) ==> r == (if fallback {
            RecordingTarget::FallbackToDefault
        } else {
            RecordingTarget::Refuse
        }),
        device@.len() > 0 && info.available != Some(false) ==> (r matches RecordingTarget::Device(d)
            && d@ == device@),
{
    if device.is_empty() {
        return RecordingTarget::SystemDefault;
    }
    match info.available {
        Some(false) => if fallback {
            RecordingTarget::FallbackToDefault
        } else {
            RecordingTarget::Refuse
        },
        _ => RecordingTarget::Device(String::from_str(device)),
    }
}

/// The `pw-record` arguments for a recording from `target`: the target
/// device when there is one, then mono 16 kHz into the recording file.
pub open spec fn record_args_of(target: Option<Seq<char>>) -> Seq<Seq<char>> {
    (match target {
        Some(d) => seq!["--target="@ + d],
        None => Seq::empty(),
    }) + seq!["--channels=1"@, "--rate=16000"@, RECORDING_PATH@]
}

/// The `pw-record` arguments for a recording from `target` (`None` for the
/// system default).
pub fn record_args(target: Option<&str>) -> (r: Vec<String>)
    ensures
        r@.map_values(|s: String| s@) == record_args_of(
            match target {
                Some(d) => Some(d@),
                None => None,
            },
        ),
{
    let mut r: Vec<String> = Vec::new();
    match target {
        Some(d) => {
            let mut arg = String::from_str("--target=");
            let dv = crate::text::chars_of(d);
            crate::text::push_range(&mut arg, &dv, 0, dv.len());
            proof {
                assert(dv@.subrange(0, dv@.len() as int) =~= dv@);
            }
            r.push(arg);
        },
        None => {},
    }
    r.push(String::from_str("--channels=1"));
    r.push(String::from_str("--rate=16000"));
    r.push(String::from_str(RECORDING_PATH));
    assert(r@.map_values(|s: String| s@) =~= record_args_of(
        match target {
            Some(d) => Some(d@),
            None => None,
        },
    ));
    r
}

/// The PID the PID file's `contents` hold: the trimmed text read as an
/// `i32`.
pub fn recording_pid(contents: &str) -> (r: Option<i32>)
    ensures
        r == parsed_i32(trim(contents@)),
{
    let t = trim_string(contents);
    parse_i32(t.as_str())
}

} // verus!
