//! The audio devices that the audio server knows.

use crate::error::WayclipError;
use crate::text::{cat, decimal_text, same_text, starts_with};
use vstd::prelude::*;

verus! {

/// How often a failed connection to the audio server is tried again.
pub const MAX_CONNECT_ATTEMPTS: usize = 10;

/// What an audio device is for.
#[derive(Clone, Copy, Debug, PartialEq, Eq, Structural)]
pub enum PipewireNodeType {
    /// It records.
    Source,
    /// It plays.
    Sink,
    /// Something else.
    Unknown,
}

/// What a device of this media class is for.
pub open spec fn node_type_of(media_class: Seq<char>) -> PipewireNodeType {
    if media_class == "Audio/Source"@ {
        PipewireNodeType::Source
    } else if media_class == "Audio/Sink"@ {
        PipewireNodeType::Sink
    } else {
        PipewireNodeType::Unknown
    }
}

impl<'a> From<&'a str> for PipewireNodeType {
    fn from(value: &'a str) -> (r: PipewireNodeType) {
        if same_text(value, "Audio/Source") {
            PipewireNodeType::Source
        } else if same_text(value, "Audio/Sink") {
            PipewireNodeType::Sink
        } else {
            PipewireNodeType::Unknown
        }
    }
}

impl<'a> vstd::std_specs::convert::FromSpecImpl<&'a str> for PipewireNodeType {
    open spec fn obeys_from_spec() -> bool {
        true
    }

    open spec fn from_spec(value: &'a str) -> PipewireNodeType {
        node_type_of(value@)
    }
}

/// An audio device.
#[derive(Debug)]
pub struct PipewireDevice {
    /// What it is for.
    pub node_type: PipewireNodeType,
    /// The name by which it is chosen.
    pub node_name: String,
    /// The name that people read.
    pub node_description: String,
    /// The number by which the audio server knows it.
    pub node_id: u32,
}

/// What a [`PipewireDevice`] says.
pub struct DeviceView {
    /// What it is for.
    pub node_type: PipewireNodeType,
    /// The name by which it is chosen.
    pub node_name: Seq<char>,
    /// The name that people read.
    pub node_description: Seq<char>,
    /// The number by which the audio server knows it.
    pub node_id: u32,
}

impl View for PipewireDevice {
    type V = DeviceView;

    open spec fn view(&self) -> DeviceView {
        DeviceView {
            node_type: self.node_type,
            node_name: self.node_name@,
            node_description: self.node_description@,
            node_id: self.node_id,
        }
    }
}

impl Clone for PipewireDevice {
    fn clone(&self) -> (r: PipewireDevice)
        ensures
            r == *self,
    {
        PipewireDevice {
            node_type: self.node_type,
            node_name: self.node_name.clone(),
            node_description: self.node_description.clone(),
            node_id: self.node_id,
        }
    }
}

/// What is known of the audio server.
#[derive(Debug)]
pub struct PipewireState {
    /// The devices, in the order in which they appeared.
    pub devices: Vec<PipewireDevice>,
    /// The device that plays by default.
    pub default_sink_node_name: Option<String>,
    /// The device that records by default.
    pub default_source_node_name: Option<String>,
}

impl Clone for PipewireState {
    fn clone(&self) -> (r: PipewireState)
        ensures
            r.devices@ == self.devices@,
            r.default_sink_node_name == self.default_sink_node_name,
            r.default_source_node_name == self.default_source_node_name,
    {
        let mut devices: Vec<PipewireDevice> = Vec::new();
        let mut i: usize = 0;
        while i < self.devices.len()
            invariant
                i <= self.devices@.len(),
                devices@ == self.devices@.take(i as int),
            decreases self.devices@.len() - i,
        {
            devices.push(self.devices[i].clone());
            i = i + 1;
            assert(devices@ =~= self.devices@.take(i as int));
        }
        assert(devices@ =~= self.devices@);
        let default_sink_node_name: Option<String> = match &self.default_sink_node_name {
            Some(n) => Some(n.clone()),
            None => None,
        };
        let default_source_node_name: Option<String> = match &self.default_source_node_name {
            Some(n) => Some(n.clone()),
            None => None,
        };
        PipewireState { devices, default_sink_node_name, default_source_node_name }
    }
}

/// Whether one of the devices has this number.
pub open spec fn has_id(devices: Seq<PipewireDevice>, id: u32) -> bool {
    exists|i: int| 0 <= i < devices.len() && #[trigger] devices[i].node_id == id
}

/// Whether one of the devices has this name.
pub open spec fn has_name(devices: Seq<PipewireDevice>, name: Seq<char>) -> bool {
    exists|i: int| 0 <= i < devices.len() && #[trigger] devices[i].node_name@ == name
}

/// The number of the first device of this name, if there is one.
pub open spec fn id_of(devices: Seq<PipewireDevice>, name: Seq<char>) -> Option<u32>
    decreases devices.len(),
{
    if devices.len() == 0 {
        None
    } else if devices[0].node_name@ == name {
        Some(devices[0].node_id)
    } else {
        id_of(devices.drop_first(), name)
    }
}

/// The devices that remain when the one of this number goes.
pub open spec fn without_id(devices: Seq<PipewireDevice>, id: u32) -> Seq<PipewireDevice> {
    devices.filter(|d: PipewireDevice| d.node_id != id)
}

impl PipewireState {
    /// Nothing is known yet.
    pub fn new() -> (r: PipewireState)
        ensures
            r.devices@.len() == 0,
            r.default_sink_node_name is None,
            r.default_source_node_name is None,
            r.wf(),
    {
        PipewireState {
            devices: Vec::new(),
            default_sink_node_name: None,
            default_source_node_name: None,
        }
    }

    /// No two devices have the same number.
    pub open spec fn wf(&self) -> bool {
        forall|i: int, j: int|
            0 <= i < j < self.devices@.len() ==> #[trigger] self.devices@[i].node_id
                != #[trigger] self.devices@[j].node_id
    }

    /// Whether one of the devices has this name.
    pub fn has_device(&self, node_name: &str) -> (r: bool)
        ensures
            r == has_name(self.devices@, node_name@),
    {
        let mut i: usize = 0;
        while i < self.devices.len()
            invariant
                i <= self.devices@.len(),
                forall|k: int| 0 <= k < i ==> #[trigger] self.devices@[k].node_name@ != node_name@,
            decreases self.devices@.len() - i,
        {
            if same_text(self.devices[i].node_name.as_str(), node_name) {
                assert(self.devices@[i as int].node_name@ == node_name@);
                return true;
            }
            i = i + 1;
        }
        false
    }
}

impl PipewireState {
    /// Whether `self` is `before` after this node appeared.
    pub open spec fn has_met(
        &self,
        before: &PipewireState,
        id: u32,
        media_class: Option<&str>,
        node_name: Option<&str>,
        node_description: Option<&str>,
    ) -> bool {
        let device = is_device(media_class, node_name);
        &&& !device || has_id(before.devices@, id) ==> self.devices@ == before.devices@
        &&& device && !has_id(before.devices@, id) ==> {
            &&& self.devices@.len() == before.devices@.len() + 1
            &&& self.devices@.drop_last() == before.devices@
            &&& self.devices@.last()@ == (DeviceView {
                node_type: node_type_of(media_class.unwrap()@),
                node_name: node_name.unwrap()@,
                node_description: match node_description {
                    Some(d) => d@,
                    None => node_name.unwrap()@,
                },
                node_id: id,
            })
        }
        &&& self.default_sink_node_name == before.default_sink_node_name
        &&& self.default_source_node_name == before.default_source_node_name
    }

    /// Whether `self` is `before` after the default of this key became the device of this name,
    /// or none.
    pub open spec fn has_default(
        &self,
        before: &PipewireState,
        key: Option<&str>,
        name: Option<Seq<char>>,
    ) -> bool {
        &&& self.devices@ == before.devices@
        &&& (key matches Some(k) && k@ == "default.audio.sink"@) ==> name_is(
            self.default_sink_node_name,
            name,
        ) && self.default_source_node_name == before.default_source_node_name
        &&& names_default(key) && !(key matches Some(k) && k@ == "default.audio.sink"@) ==> name_is(
            self.default_source_node_name,
            name,
        ) && self.default_sink_node_name == before.default_sink_node_name
        &&& !names_default(key) ==> self.default_sink_node_name == before.default_sink_node_name
            && self.default_source_node_name == before.default_source_node_name
    }
}

/// Whether a node of this class and name is an audio device that can be recorded.
pub open spec fn is_device(media_class: Option<&str>, node_name: Option<&str>) -> bool {
    media_class matches Some(class) && node_name is Some && crate::text::begins_with(
        class@,
        "Audio/"@,
    ) && class@ != "Audio/Stream"@
}

/// Follows the audio server.
#[derive(Debug)]
pub struct PipewireManager {
    /// What is known of it.
    pub state: PipewireState,
}

impl PipewireManager {
    /// Nothing is known yet.
    pub fn new() -> (r: PipewireManager)
        ensures
            r.state.devices@.len() == 0,
            r.state.default_sink_node_name is None,
            r.state.default_source_node_name is None,
            r.state.wf(),
    {
        PipewireManager { state: PipewireState::new() }
    }

    /// What a failed connection leads to: one more try, counted, or an error once all are
    /// used up.
    pub fn after_failed_connect(connection_attempts: usize, error: &str) -> (r: Result<
        usize,
        WayclipError,
    >)
        ensures
            match r {
                Ok(n) => connection_attempts < MAX_CONNECT_ATTEMPTS && n == connection_attempts + 1,
                Err(e) => connection_attempts >= MAX_CONNECT_ATTEMPTS && (
                e matches WayclipError::Pipewire(m) && m@ == "Failed to connect to PipeWire after "@
                    + crate::text::decimal(connection_attempts as nat) + " attempts: "@ + error@),
            },
            r is Ok <==> connection_attempts < 10,
    {
        if connection_attempts < MAX_CONNECT_ATTEMPTS {
            Ok(connection_attempts + 1)
        } else {
            let count: String = decimal_text(connection_attempts as u64);
            let head: String = cat("Failed to connect to PipeWire after ", count.as_str());
            let middle: String = cat(head.as_str(), " attempts: ");
            Err(WayclipError::Pipewire(cat(middle.as_str(), error)))
        }
    }

    /// A node appeared. Tells whether the state is to be announced: whenever the node is
    /// an audio device, also one that is known already.
    pub fn on_node(
        &mut self,
        id: u32,
        media_class: Option<&str>,
        node_name: Option<&str>,
        node_description: Option<&str>,
    ) -> (r: bool)
        ensures
            r == is_device(media_class, node_name),
            final(self).state.has_met(
                &old(self).state,
                id,
                media_class,
                node_name,
                node_description,
            ),
            old(self).state.wf() ==> final(self).state.wf(),
    {
        if let (Some(class), Some(name)) = (media_class, node_name) {
            if starts_with(class, "Audio/") && !same_text(class, "Audio/Stream") {
                let mut known: bool = false;
                let mut i: usize = 0;
                while i < self.state.devices.len()
                    invariant
                        *self == *old(self),
                        i <= self.state.devices@.len(),
                        known ==> has_id(self.state.devices@, id),
                        !known ==> forall|k: int|
                            0 <= k < i ==> #[trigger] self.state.devices@[k].node_id != id,
                    decreases self.state.devices@.len() - i,
                {
                    if self.state.devices[i].node_id == id {
                        assert(self.state.devices@[i as int].node_id == id);
                        known = true;
                    }
                    i = i + 1;
                }
                if !known {
                    let description: &str = match node_description {
                        Some(d) => d,
                        None => name,
                    };
                    self.state.devices.push(
                        PipewireDevice {
                            node_type: PipewireNodeType::from(class),
                            node_name: name.to_owned(),
                            node_description: description.to_owned(),
                            node_id: id,
                        },
                    );
                    assert(self.state.devices@.drop_last() =~= old(self).state.devices@);
                }
                return true;
            }
        }
        false
    }

    /// A node went. Tells whether the state is to be announced: only when it was known.
    pub fn on_remove(&mut self, id: u32) -> (r: bool)
        ensures
            r == has_id(old(self).state.devices@, id),
            final(self).state.devices@ == without_id(old(self).state.devices@, id),
            final(self).state.default_sink_node_name == old(self).state.default_sink_node_name,
            final(self).state.default_source_node_name == old(self).state.default_source_node_name,
            old(self).state.wf() ==> final(self).state.wf(),
    {
        let ghost before = self.state.devices@;
        let mut kept: Vec<PipewireDevice> = Vec::new();
        let mut all: Vec<PipewireDevice> = Vec::new();
        std::mem::swap(&mut all, &mut self.state.devices);
        let total: usize = all.len();
        let mut removed: bool = false;
        let ghost mut done: int = 0;
        while all.len() > 0
            invariant
                0 <= done <= before.len() == total,
                all@ == before.skip(done),
                kept@ == without_id(before.take(done), id),
                removed == has_id(before.take(done), id),
                self.state.devices@.len() == 0,
                self.state.default_sink_node_name == old(self).state.default_sink_node_name,
                self.state.default_source_node_name == old(self).state.default_source_node_name,
            decreases all@.len(),
        {
            let device: PipewireDevice = all.remove(0);
            proof {
                assert(before.take(done + 1).drop_last() =~= before.take(done));
                assert(before.take(done + 1).last() == before[done]);
                assert(device == before[done]);
                reveal(Seq::filter);
                lemma_has_id_push(before.take(done), before[done], id);
                assert(before.take(done + 1) =~= before.take(done).push(before[done]));
                done = done + 1;
            }
            if device.node_id == id {
                removed = true;
            } else {
                kept.push(device);
            }
            assert(all@ =~= before.skip(done));
        }
        assert(before.take(done) =~= before);
        self.state.devices = kept;
        proof {
            if old(self).state.wf() {
                lemma_without_id_wf(before, id);
            }
        }
        removed
    }

    /// The number of the first device of this name, if there is one.
    pub fn get_node_id_from_node_name(&self, node_name: &str) -> (r: Option<u32>)
        ensures
            r == id_of(self.state.devices@, node_name@),
    {
        let mut i: usize = 0;
        assert(self.state.devices@.skip(0) =~= self.state.devices@);
        while i < self.state.devices.len()
            invariant
                i <= self.state.devices@.len(),
                id_of(self.state.devices@, node_name@) == id_of(
                    self.state.devices@.skip(i as int),
                    node_name@,
                ),
            decreases self.state.devices@.len() - i,
        {
            if same_text(self.state.devices[i].node_name.as_str(), node_name) {
                return Some(self.state.devices[i].node_id);
            }
            assert(self.state.devices@.skip(i as int).drop_first() =~= self.state.devices@.skip(
                i + 1,
            ));
            i = i + 1;
        }
        None
    }

    /// Whether one of the devices has this name.
    pub fn is_node_name_valid(&self, node_name: &str) -> (r: bool)
        ensures
            r == has_name(self.state.devices@, node_name@),
    {
        self.state.has_device(node_name)
    }

    /// What is known of the audio server.
    pub fn current_state(&self) -> (r: &PipewireState)
        ensures
            *r == self.state,
    {
        &self.state
    }

    /// The device that plays by default.
    pub fn get_default_sink_name(&self) -> (r: Option<String>)
        ensures
            r == self.state.default_sink_node_name,
    {
        match &self.state.default_sink_node_name {
            Some(n) => Some(n.clone()),
            None => None,
        }
    }

    /// The device that records by default.
    pub fn get_default_source_name(&self) -> (r: Option<String>)
        ensures
            r == self.state.default_source_node_name,
    {
        match &self.state.default_source_node_name {
            Some(n) => Some(n.clone()),
            None => None,
        }
    }

    /// Whether metadata of this name tells the default devices.
    pub fn is_default_metadata(name: Option<&str>) -> (r: bool)
        ensures
            r == (name matches Some(n) && n@ == "default"@),
    {
        match name {
            Some(n) => same_text(n, "default"),
            None => false,
        }
    }

    /// The named default changed, to the device of this name or to none. Tells whether the
    /// state is to be announced: only when the key is that of a default device.
    pub fn set_default(&mut self, key: Option<&str>, parsed_name: Option<String>) -> (r: bool)
        ensures
            r == names_default(key),
            final(self).state.devices@ == old(self).state.devices@,
            final(self).state.default_sink_node_name == (if key matches Some(k) && k@
                == "default.audio.sink"@ {
                parsed_name
            } else {
                old(self).state.default_sink_node_name
            }),
            final(self).state.default_source_node_name == (if r && !(key matches Some(k) && k@
                == "default.audio.sink"@) {
                parsed_name
            } else {
                old(self).state.default_source_node_name
            }),
    {
        match key {
            Some(k) => if same_text(k, "default.audio.sink") {
                self.state.default_sink_node_name = parsed_name;
                true
            } else if same_text(k, "default.audio.source") {
                self.state.default_source_node_name = parsed_name;
                true
            } else {
                false
            },
            None => false,
        }
    }

    /// A property of the default metadata changed. Its value is a description in which the
    /// member `name` is the name of a device; anything else unsets the default.
    pub fn on_metadata_property(&mut self, key: Option<&str>, value: Option<&str>) -> (r: bool)
        ensures
            r == names_default(key),
            final(self).state.has_default(&old(self).state, key, described_name(value)),
    {
        let parsed_name: Option<String> = match value {
            Some(v) => {
                let members: Option<Vec<(String, Option<String>)>> = object_members(v);
                name_member(&members)
            },
            None => None,
        };
        self.set_default(key, parsed_name)
    }
}

/// Whether a property of this key tells a default device.
pub open spec fn names_default(key: Option<&str>) -> bool {
    key matches Some(k) && (k@ == "default.audio.sink"@ || k@ == "default.audio.source"@)
}

/// Whether a stored name says this.
pub open spec fn name_is(stored: Option<String>, said: Option<Seq<char>>) -> bool {
    match (stored, said) {
        (Some(a), Some(b)) => a@ == b,
        (None, None) => true,
        _ => false,
    }
}

/// The members of the object that a text in JSON describes, each with its value where that
/// is a string, as `serde_json::from_str` reads them; none where the text is no JSON or
/// describes something else.
pub uninterp spec fn json_members(text: Seq<char>) -> Option<
    Seq<(Seq<char>, Option<Seq<char>>)>,
>;

/// What a list of members says.
pub open spec fn members_view(members: Seq<(String, Option<String>)>) -> Seq<
    (Seq<char>, Option<Seq<char>>),
> {
    members.map_values(
        |m: (String, Option<String>)|
            (
                m.0@,
                match m.1 {
                    Some(s) => Some(s@),
                    None => None,
                },
            ),
    )
}

/// Calls `serde_json::from_str` on a text and hands out the members of the object that it
/// read. Which members a text has is named, not described.
#[verifier::external_body]
pub(crate) fn object_members(text: &str) -> (r: Option<Vec<(String, Option<String>)>>)
    ensures
        match r {
            Some(members) => json_members(text@) == Some(members_view(members@)),
            None => json_members(text@) is None,
        },
{
    match serde_json::from_str::<serde_json::Value>(text) {
        Ok(serde_json::Value::Object(map)) => Some(
            map.into_iter().map(|(k, v)| (k, v.as_str().map(str::to_owned))).collect(),
        ),
        _ => None,
    }
}

/// The string value of the first member called `name`.
pub open spec fn member_called_name(members: Seq<(Seq<char>, Option<Seq<char>>)>) -> Option<
    Seq<char>,
>
    decreases members.len(),
{
    if members.len() == 0 {
        None
    } else if members[0].0 == "name"@ {
        members[0].1
    } else {
        member_called_name(members.drop_first())
    }
}

/// The string value of the member called `name`, in a description that may be none.
pub fn name_member(members: &Option<Vec<(String, Option<String>)>>) -> (r: Option<String>)
    ensures
        name_is(
            r,
            match members {
                Some(m) => member_called_name(members_view(m@)),
                None => None,
            },
        ),
{
    match members {
        Some(list) => {
            let ghost all = members_view(list@);
            let mut i: usize = 0;
            assert(all.skip(0) =~= all);
            while i < list.len()
                invariant
                    *members == Some(*list),
                    all == members_view(list@),
                    i <= list@.len(),
                    member_called_name(all) == member_called_name(all.skip(i as int)),
                decreases list@.len() - i,
            {
                if same_text(list[i].0.as_str(), "name") {
                    return match &list[i].1 {
                        Some(s) => Some(s.clone()),
                        None => None,
                    };
                }
                assert(all.skip(i as int).drop_first() =~= all.skip(i + 1));
                i = i + 1;
            }
            None
        },
        None => None,
    }
}

/// The device name in the value of a default.
pub open spec fn described_name(value: Option<&str>) -> Option<Seq<char>> {
    match value {
        Some(v) => match json_members(v@) {
            Some(members) => member_called_name(members),
            None => None,
        },
        None => None,
    }
}

proof fn lemma_has_id_push(devices: Seq<PipewireDevice>, d: PipewireDevice, id: u32)
    ensures
        has_id(devices.push(d), id) == (has_id(devices, id) || d.node_id == id),
{
    let more = devices.push(d);
    if has_id(devices, id) {
        let i = choose|i: int| 0 <= i < devices.len() && #[trigger] devices[i].node_id == id;
        assert(more[i].node_id == id);
    }
    if d.node_id == id {
        assert(more[devices.len() as int].node_id == id);
    }
}

proof fn lemma_without_id_index(devices: Seq<PipewireDevice>, id: u32, i: int)
    requires
        0 <= i < without_id(devices, id).len(),
    ensures
        exists|k: int| 0 <= k < devices.len() && #[trigger] devices[k] == without_id(devices, id)[i],
        without_id(devices, id)[i].node_id != id,
    decreases devices.len(),
{
    reveal(Seq::filter);
    let rest = devices.drop_last();
    if i < without_id(rest, id).len() {
        lemma_without_id_index(rest, id, i);
        let k = choose|k: int| 0 <= k < rest.len() && #[trigger] rest[k] == without_id(rest, id)[i];
        assert(devices[k] == without_id(devices, id)[i]);
    } else {
        assert(devices[devices.len() - 1] == without_id(devices, id)[i]);
    }
}

/// Letting a device go leaves the numbers of the others apart.
proof fn lemma_without_id_wf(devices: Seq<PipewireDevice>, id: u32)
    requires
        forall|i: int, j: int|
            0 <= i < j < devices.len() ==> #[trigger] devices[i].node_id
                != #[trigger] devices[j].node_id,
    ensures
        forall|i: int, j: int|
            0 <= i < j < without_id(devices, id).len() ==> #[trigger] without_id(
                devices,
                id,
            )[i].node_id != #[trigger] without_id(devices, id)[j].node_id,
    decreases devices.len(),
{
    reveal(Seq::filter);
    if devices.len() > 0 {
        let rest = devices.drop_last();
        lemma_without_id_wf(rest, id);
        let kept = without_id(devices, id);
        let before = without_id(rest, id);
        assert forall|i: int, j: int| 0 <= i < j < kept.len() implies #[trigger] kept[i].node_id
            != #[trigger] kept[j].node_id by {
            if j < before.len() {
                assert(before[i].node_id != before[j].node_id);
            } else {
                lemma_without_id_index(rest, id, i);
                let k = choose|k: int| 0 <= k < rest.len() && #[trigger] rest[k] == before[i];
                assert(devices[k].node_id != devices[devices.len() - 1].node_id);
            }
        }
    }
}

/// Once a device is let go, no device has its number.
pub proof fn law_removed_device_is_gone(devices: Seq<PipewireDevice>, id: u32)
    ensures
        !has_id(without_id(devices, id), id),
{
    let kept = without_id(devices, id);
    assert forall|i: int| 0 <= i < kept.len() implies #[trigger] kept[i].node_id != id by {
        lemma_without_id_index(devices, id, i);
    }
}

/// Letting go of a device that is not known changes nothing.
pub proof fn law_removing_unknown_changes_nothing(devices: Seq<PipewireDevice>, id: u32)
    requires
        !has_id(devices, id),
    ensures
        without_id(devices, id) == devices,
    decreases devices.len(),
{
    reveal(Seq::filter);
    if devices.len() > 0 {
        let rest = devices.drop_last();
        assert(rest.push(devices.last()) =~= devices);
        lemma_has_id_push(rest, devices.last(), id);
        law_removing_unknown_changes_nothing(rest, id);
    } else {
        assert(without_id(devices, id) =~= devices);
    }
}

/// A device that came last and goes again leaves the others as they were.
pub proof fn law_remove_undoes_add(devices: Seq<PipewireDevice>, d: PipewireDevice)
    requires
        !has_id(devices, d.node_id),
    ensures
        without_id(devices.push(d), d.node_id) == devices,
{
    reveal(Seq::filter);
    assert(devices.push(d).drop_last() =~= devices);
    law_removing_unknown_changes_nothing(devices, d.node_id);
}

/// A name has a number exactly when a device has the name.
pub proof fn law_names_and_ids_agree(devices: Seq<PipewireDevice>, name: Seq<char>)
    ensures
        id_of(devices, name) is Some <==> has_name(devices, name),
        id_of(devices, name) matches Some(id) ==> has_id(devices, id),
    decreases devices.len(),
{
    if devices.len() > 0 {
        let rest = devices.drop_first();
        law_names_and_ids_agree(rest, name);
        if has_name(rest, name) {
            let i = choose|i: int| 0 <= i < rest.len() && #[trigger] rest[i].node_name@ == name;
            assert(devices[i + 1].node_name@ == name);
        }
        if has_name(devices, name) && devices[0].node_name@ != name {
            let i = choose|i: int|
                0 <= i < devices.len() && #[trigger] devices[i].node_name@ == name;
            assert(rest[i - 1].node_name@ == name);
        }
        if devices[0].node_name@ == name {
            assert(has_id(devices, devices[0].node_id));
        } else if let Some(id) = id_of(rest, name) {
            let i = choose|i: int| 0 <= i < rest.len() && #[trigger] rest[i].node_id == id;
            assert(devices[i + 1].node_id == id);
        }
    }
}

/// The number of a name is that of the first device that has it.
pub proof fn law_first_device_of_a_name(devices: Seq<PipewireDevice>, name: Seq<char>, k: int)
    requires
        0 <= k < devices.len(),
        devices[k].node_name@ == name,
        forall|i: int| 0 <= i < k ==> #[trigger] devices[i].node_name@ != name,
    ensures
        id_of(devices, name) == Some(devices[k].node_id),
    decreases k,
{
    if k > 0 {
        let rest = devices.drop_first();
        assert(devices[0].node_name@ != name);
        assert forall|i: int| 0 <= i < k - 1 implies #[trigger] rest[i].node_name@ != name by {
            assert(rest[i] == devices[i + 1]);
        }
        law_first_device_of_a_name(rest, name, k - 1);
    }
}

/// When a device goes, each of the others stays, in its place among them.
pub proof fn law_other_devices_stay(
    before: Seq<PipewireDevice>,
    d: PipewireDevice,
    behind: Seq<PipewireDevice>,
    id: u32,
)
    ensures
        without_id(before + seq![d] + behind, id) == (if d.node_id == id {
            without_id(before, id) + without_id(behind, id)
        } else {
            without_id(before, id) + seq![d] + without_id(behind, id)
        }),
{
    let keep = |e: PipewireDevice| e.node_id != id;
    Seq::filter_distributes_over_add(before + seq![d], behind, keep);
    Seq::filter_distributes_over_add(before, seq![d], keep);
    reveal(Seq::filter);
    let one = seq![d];
    assert(one.drop_last() =~= Seq::<PipewireDevice>::empty());
    assert(one.last() == d);
    assert(without_id(Seq::<PipewireDevice>::empty(), id) =~= Seq::<PipewireDevice>::empty());
    assert(without_id(one, id) =~= if d.node_id == id {
        Seq::<PipewireDevice>::empty()
    } else {
        one
    });
    assert(without_id(before + seq![d] + behind, id) =~= without_id(before, id) + without_id(
        one,
        id,
    ) + without_id(behind, id));
    assert(without_id(before, id) + Seq::<PipewireDevice>::empty() =~= without_id(before, id));
}

/// A node is an audio device where it has a name and its class is one of audio, of which only
/// the streams are left out; a source records and a sink plays.
pub proof fn law_audio_devices(class: &str, rest: Seq<char>, node_name: Option<&str>)
    requires
        class@ == "Audio/"@ + rest,
    ensures
        is_device(Some(class), node_name) <==> node_name is Some && rest != "Stream"@,
        rest == "Source"@ ==> node_type_of(class@) is Source,
        rest == "Sink"@ ==> node_type_of(class@) is Sink,
        rest != "Source"@ && rest != "Sink"@ ==> node_type_of(class@) is Unknown,
        !is_device(None, node_name),
{
    reveal_strlit("Audio/");
    reveal_strlit("Stream");
    reveal_strlit("Audio/Stream");
    reveal_strlit("Source");
    reveal_strlit("Audio/Source");
    reveal_strlit("Sink");
    reveal_strlit("Audio/Sink");
    crate::text::law_text_is_found_where_it_stands(rest, "Audio/"@, rest);
    assert("Audio/Stream"@ =~= "Audio/"@ + "Stream"@);
    assert("Audio/Source"@ =~= "Audio/"@ + "Source"@);
    assert("Audio/Sink"@ =~= "Audio/"@ + "Sink"@);
    assert(class@.subrange(6, class@.len() as int) =~= rest);
    assert("Audio/Stream"@.subrange(6, 12) =~= "Stream"@);
    assert("Audio/Source"@.subrange(6, 12) =~= "Source"@);
    assert("Audio/Sink"@.subrange(6, 10) =~= "Sink"@);
    assert("Source"@.len() == 6 && "Sink"@.len() == 4);
    assert("Audio/Source"@.len() == 12 && "Audio/Sink"@.len() == 10);
}

/// A node whose class is not one of audio is no audio device.
pub proof fn law_other_nodes_are_no_devices(class: &str, node_name: Option<&str>)
    requires
        class@.len() < 6 || class@.subrange(0, 6) != "Audio/"@,
    ensures
        !is_device(Some(class), node_name),
{
    reveal_strlit("Audio/");
}

/// In a description the first member called `name` tells the name, where it is a text; the
/// members before it do not matter.
pub proof fn law_name_is_told_by_its_member(
    before: Seq<(Seq<char>, Option<Seq<char>>)>,
    value: Option<Seq<char>>,
    behind: Seq<(Seq<char>, Option<Seq<char>>)>,
)
    requires
        forall|i: int| 0 <= i < before.len() ==> (#[trigger] before[i]).0 != "name"@,
    ensures
        member_called_name(before) is None,
        member_called_name(before + seq![("name"@, value)] + behind) == value,
    decreases before.len(),
{
    let all = before + seq![("name"@, value)] + behind;
    if before.len() > 0 {
        let rest = before.drop_first();
        assert(before[0].0 != "name"@);
        assert forall|i: int| 0 <= i < rest.len() implies (#[trigger] rest[i]).0 != "name"@ by {
            assert(rest[i] == before[i + 1]);
        }
        law_name_is_told_by_its_member(rest, value, behind);
        assert(all[0] == before[0]);
        assert(all.drop_first() =~= rest + seq![("name"@, value)] + behind);
    } else {
        assert(all[0] == ("name"@, value));
    }
}

/// Nothing but the keys of the two defaults tells one.
pub proof fn law_defaults_have_two_keys(key: &str)
    ensures
        key@ == "default.audio.sink"@ ==> names_default(Some(key)),
        key@ == "default.audio.source"@ ==> names_default(Some(key)),
        names_default(Some(key)) ==> key@ == "default.audio.sink"@ || key@
            == "default.audio.source"@,
        !names_default(None),
{
}

/// A device that appears is known from then on, behind the others, by its name, its number and
/// its description, for which its name stands in; one that is known already, and a node that is
/// no device, change nothing. The defaults stay in any case.
pub proof fn law_new_device_is_known(
    before: PipewireState,
    after: PipewireState,
    id: u32,
    class: &str,
    name: &str,
    description: Option<&str>,
)
    requires
        after.has_met(&before, id, Some(class), Some(name), description),
    ensures
        is_device(Some(class), Some(name)) ==> has_id(after.devices@, id),
        is_device(Some(class), Some(name)) && !has_id(before.devices@, id) ==> ({
            let d = after.devices@.last();
            &&& after.devices@ == before.devices@.push(d)
            &&& d.node_name@ == name@ && d.node_id == id
            &&& d.node_type == node_type_of(class@)
            &&& description matches Some(text) ==> d.node_description@ == text@
            &&& description is None ==> d.node_description@ == name@
            &&& has_name(after.devices@, name@)
        }),
        has_id(before.devices@, id) || !is_device(Some(class), Some(name)) ==> after.devices@
            == before.devices@,
        after.default_sink_node_name == before.default_sink_node_name,
        after.default_source_node_name == before.default_source_node_name,
{
    if is_device(Some(class), Some(name)) && !has_id(before.devices@, id) {
        let d = after.devices@.last();
        assert(after.devices@ =~= after.devices@.drop_last().push(d));
        assert(d@.node_name == name@);
        let last = after.devices@.len() - 1;
        assert(after.devices@[last].node_name@ == name@);
        assert(after.devices@[last].node_id == id);
    }
}

/// A default that changes is that of its key alone, and no device comes or goes with it.
pub proof fn law_defaults_change_by_their_key(
    before: PipewireState,
    after: PipewireState,
    key: &str,
    name: Option<Seq<char>>,
)
    requires
        after.has_default(&before, Some(key), name),
    ensures
        after.devices@ == before.devices@,
        key@ == "default.audio.sink"@ ==> crate::text::text_option(after.default_sink_node_name)
            == name && after.default_source_node_name == before.default_source_node_name,
        key@ == "default.audio.source"@ ==> crate::text::text_option(
            after.default_source_node_name,
        ) == name && after.default_sink_node_name == before.default_sink_node_name,
        key@ != "default.audio.sink"@ && key@ != "default.audio.source"@
            ==> after.default_sink_node_name == before.default_sink_node_name
            && after.default_source_node_name == before.default_source_node_name,
{
    reveal_strlit("default.audio.sink");
    reveal_strlit("default.audio.source");
    assert("default.audio.sink"@.len() == 18);
    assert("default.audio.source"@.len() == 20);
}

} // verus!
