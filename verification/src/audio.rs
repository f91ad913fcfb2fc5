//! The part of the capture pipeline that receives the audio devices, mixes them and
//! encodes the mix.

use crate::daemon::{DaemonCore, DefaultDeviceType};
use crate::error::WayclipError;
use crate::pipeline::{CapsPlan, Chain, Element, PropValue};
use crate::pipewire::{PipewireManager, PipewireState};
use crate::settings::{AudioNode, AudioSettings};
use crate::text::{cat, decimal_text, is_empty, sanitise};
use crate::video::{make_app_sink, make_caps_filter};
use vstd::prelude::*;

verus! {

/// The channels of the recorded sound.
pub const DEFAULT_AUDIO_CHANNELS: i32 = 2;

/// The seconds that the daemon waits for the chosen devices to appear.
pub const DEFAULT_PIPEWIRE_TIMEOUT: u64 = 4;

/// A device that is stored in the settings as the chosen one.
#[derive(Debug)]
pub struct DeviceChoice {
    /// The setting.
    pub setting: String,
    /// The name of the device.
    pub node_name: String,
}

/// The setting that holds the chosen device.
pub open spec fn device_setting(device_type: DefaultDeviceType) -> Seq<char> {
    match device_type {
        DefaultDeviceType::Background => "recording.audio.background.node_name"@,
        DefaultDeviceType::Microphone => "recording.audio.microphone.node_name"@,
    }
}

/// The device that stands in for one that was never chosen.
pub open spec fn default_device(device_type: DefaultDeviceType, state: PipewireState) -> Option<
    String,
> {
    match device_type {
        DefaultDeviceType::Background => state.default_sink_node_name,
        DefaultDeviceType::Microphone => state.default_source_node_name,
    }
}

/// Whether this is the choice of the default device of this type.
pub open spec fn chooses_default(
    choice: Option<DeviceChoice>,
    device_type: DefaultDeviceType,
    state: PipewireState,
) -> bool {
    match (choice, default_device(device_type, state)) {
        (Some(c), Some(name)) => c.setting@ == device_setting(device_type) && c.node_name@ == name@,
        (None, None) => true,
        _ => false,
    }
}

/// Chooses the default device of this type, if there is one.
pub fn init_default_audio_device(
    device_type: DefaultDeviceType,
    pipewire_state: &PipewireState,
) -> (r: Option<DeviceChoice>)
    ensures
        chooses_default(r, device_type, *pipewire_state),
{
    match device_type {
        DefaultDeviceType::Background => match &pipewire_state.default_sink_node_name {
            Some(name) => Some(
                DeviceChoice {
                    setting: "recording.audio.background.node_name".to_owned(),
                    node_name: name.clone(),
                },
            ),
            None => None,
        },
        DefaultDeviceType::Microphone => match &pipewire_state.default_source_node_name {
            Some(name) => Some(
                DeviceChoice {
                    setting: "recording.audio.microphone.node_name".to_owned(),
                    node_name: name.clone(),
                },
            ),
            None => None,
        },
    }
}

/// Whether a device is there or was never chosen.
pub open spec fn is_settled(node_name: Seq<char>, state: PipewireState) -> bool {
    node_name.len() == 0 || crate::pipewire::has_name(state.devices@, node_name)
}

/// Whether both devices are there, so that nothing needs to be waited for.
pub fn devices_settled(microphone: &str, background: &str, state: &PipewireState) -> (r: bool)
    ensures
        r == (is_settled(microphone@, *state) && is_settled(background@, *state)),
{
    let mic_found: bool = is_empty(microphone) || state.has_device(microphone);
    let bg_found: bool = is_empty(background) || state.has_device(background);
    mic_found && bg_found
}

/// What the look at the audio devices led to.
#[derive(Debug)]
pub struct AudioCheck {
    /// The microphone to store in the settings, if any.
    pub microphone: Option<DeviceChoice>,
    /// The desktop's device to store in the settings, if any.
    pub background: Option<DeviceChoice>,
    /// Whether recording can go on.
    pub verdict: Result<(), WayclipError>,
}

impl AudioCheck {
    /// Whether this is what the look at these devices leads to under these settings: the
    /// defaults of `seen` for the devices that were never chosen, and the first refusal among
    /// the microphone and what the desktop plays.
    pub open spec fn follows_from(
        &self,
        manager: PipewireManager,
        seen: PipewireState,
        settings: AudioSettings,
    ) -> bool {
        &&& settings.microphone.node_name@.len() == 0 ==> chooses_default(
            self.microphone,
            DefaultDeviceType::Microphone,
            seen,
        )
        &&& settings.microphone.node_name@.len() > 0 ==> self.microphone is None
        &&& settings.background.node_name@.len() == 0 ==> chooses_default(
            self.background,
            DefaultDeviceType::Background,
            seen,
        )
        &&& settings.background.node_name@.len() > 0 ==> self.background is None
        &&& match (
            device_refusal(settings.microphone, manager),
            device_refusal(settings.background, manager),
            self.verdict,
        ) {
            (Some(why), _, Err(WayclipError::Audio(m))) => m@ == why,
            (None, Some(why), Err(WayclipError::Audio(m))) => m@ == why,
            (None, None, Ok(_)) => true,
            _ => false,
        }
    }
}

/// Why a device cannot be recorded, if it is to be recorded and is not there.
pub open spec fn device_refusal(node: AudioNode, manager: PipewireManager) -> Option<Seq<char>> {
    if node.enabled && !crate::pipewire::has_name(manager.state.devices@, node.node_name@) {
        Some("Audio device "@ + node.node_name@ + " doesnt exist"@)
    } else {
        None
    }
}

/// The elements that receive one audio device. Its node has the number `id`; what the
/// desktop plays is received where it is played.
pub open spec fn audio_source_chain(
    id: u32,
    node_name: Seq<char>,
    device_type: DefaultDeviceType,
    sample_rate_hz: u64,
) -> Seq<crate::pipeline::ElementView> {
    let name = crate::text::sanitised(node_name);
    let source = crate::pipeline::element("pipewiresrc"@, "audio_src_"@ + name).with(
        "do-timestamp"@,
        crate::pipeline::PropView::Bool(true),
    ).with(
        "target-object"@,
        crate::pipeline::PropView::Text(crate::text::decimal(id as nat)),
    );
    seq![
        if device_type is Background {
            source.with(
                "stream-properties"@,
                crate::pipeline::PropView::Flagged("properties"@, "stream.capture.sink"@, true),
            )
        } else {
            source
        },
        crate::pipeline::element("queue"@, "audio_queue_"@ + name),
        crate::video::caps_filter(
            "audio_caps_"@ + name,
            crate::pipeline::caps("audio/x-raw"@).number("rate"@, sample_rate_hz as i32).number(
                "channels"@,
                DEFAULT_AUDIO_CHANNELS,
            ),
        ),
        crate::pipeline::element("audioconvert"@, "audio_convert_"@ + name),
        crate::pipeline::element("audioresample"@, "audio_resample_"@ + name),
    ]
}

/// The elements that mix the devices, encode the mix and hand it to the ring buffer.
pub open spec fn mix_chain(settings: AudioSettings) -> Seq<crate::pipeline::ElementView> {
    seq![
        crate::pipeline::element("audiomixer"@, "audio_mixer"@).with(
            "start-time-selection"@,
            crate::pipeline::PropView::Parsed("zero"@),
        ).with("ignore-inactive-pads"@, crate::pipeline::PropView::Bool(true)),
        crate::pipeline::element("audioconvert"@, "audio_mix_convert"@),
        crate::video::caps_filter(
            "audio_mix_caps_filter"@,
            crate::pipeline::caps("audio/x-raw"@).number("channels"@, DEFAULT_AUDIO_CHANNELS),
        ),
        crate::pipeline::element(settings.codec.encoder@, "audio_mixer_encoder"@),
        crate::pipeline::element(settings.codec.parser@, "audio_mixer_parser"@),
        crate::pipeline::element("queue"@, "audio_mixer_post_queue"@),
        crate::video::app_sink("audio_appsink"@),
    ]
}

impl DaemonCore {
    /// Chooses the default for each device that was never chosen, and tells whether every
    /// device that is to be recorded is there.
    ///
    /// The defaults are those of `seen`, the state for which was waited; what is there is
    /// told by the present state.
    pub fn check_audio_devices(
        pipewire_manager: &PipewireManager,
        seen: &PipewireState,
        audio_settings: &AudioSettings,
    ) -> (r: AudioCheck)
        ensures
            r.follows_from(*pipewire_manager, *seen, *audio_settings),
    {
        let microphone: Option<DeviceChoice> = if is_empty(
            audio_settings.microphone.node_name.as_str(),
        ) {
            init_default_audio_device(DefaultDeviceType::Microphone, seen)
        } else {
            None
        };
        let background: Option<DeviceChoice> = if is_empty(
            audio_settings.background.node_name.as_str(),
        ) {
            init_default_audio_device(DefaultDeviceType::Background, seen)
        } else {
            None
        };
        let verdict: Result<(), WayclipError> = if audio_settings.microphone.enabled
            && !pipewire_manager.is_node_name_valid(audio_settings.microphone.node_name.as_str()) {
            Err(WayclipError::Audio(missing_device(audio_settings.microphone.node_name.as_str())))
        } else if audio_settings.background.enabled && !pipewire_manager.is_node_name_valid(
            audio_settings.background.node_name.as_str(),
        ) {
            Err(WayclipError::Audio(missing_device(audio_settings.background.node_name.as_str())))
        } else {
            Ok(())
        };
        AudioCheck { microphone, background, verdict }
    }

    /// Plans the elements that receive one audio device, up to the mixer. Nothing is
    /// planned for a device that is not recorded or not there.
    pub fn build_audio_source_pipeline(
        &self,
        audio_node: &AudioNode,
        audio_node_type: DefaultDeviceType,
        sample_rate_hz: u64,
    ) -> (r: Option<Chain>)
        ensures
            match (
                r,
                crate::pipewire::id_of(
                    self.pipewire_manager.state.devices@,
                    audio_node.node_name@,
                ),
            ) {
                (Some(chain), Some(id)) => audio_node.enabled && chain@ == audio_source_chain(
                    id,
                    audio_node.node_name@,
                    audio_node_type,
                    sample_rate_hz,
                ),
                (Some(_), None) => false,
                (None, found) => !audio_node.enabled || found is None,
            },
    {
        let node_id: Option<u32> = self.pipewire_manager.get_node_id_from_node_name(
            audio_node.node_name.as_str(),
        );
        if !audio_node.enabled {
            return None;
        }
        match node_id {
            None => None,
            Some(id) => {
                let name: String = sanitise(audio_node.node_name.as_str());
                let target: String = decimal_text(id as u64);
                let mut source: Element = Element::new(
                    "pipewiresrc",
                    cat("audio_src_", name.as_str()).as_str(),
                ).with_bool("do-timestamp", true).with_text("target-object", target.as_str());
                if let DefaultDeviceType::Background = audio_node_type {
                    source =
                    source.with(
                        "stream-properties",
                        PropValue::Flagged(
                            "properties".to_owned(),
                            "stream.capture.sink".to_owned(),
                            true,
                        ),
                    );
                }
                let mut chain: Chain = Chain::new();
                chain.push(source);
                chain.push(Element::new("queue", cat("audio_queue_", name.as_str()).as_str()));
                chain.push(
                    make_caps_filter(
                        cat("audio_caps_", name.as_str()).as_str(),
                        CapsPlan::new("audio/x-raw").number("rate", sample_rate_hz as i32).number(
                            "channels",
                            DEFAULT_AUDIO_CHANNELS,
                        ),
                    ),
                );
                chain.push(
                    Element::new("audioconvert", cat("audio_convert_", name.as_str()).as_str()),
                );
                chain.push(
                    Element::new("audioresample", cat("audio_resample_", name.as_str()).as_str()),
                );
                Some(chain)
            },
        }
    }

    /// Plans the elements that mix the devices, encode the mix and hand it to the ring
    /// buffer.
    pub fn build_mix_pipeline(&self, audio_settings: &AudioSettings) -> (r: Chain)
        ensures
            r@ == mix_chain(*audio_settings),
    {
        let mut r: Chain = Chain::new();
        r.push(
            Element::new("audiomixer", "audio_mixer").with_parsed(
                "start-time-selection",
                "zero",
            ).with_bool("ignore-inactive-pads", true),
        );
        r.push(Element::new("audioconvert", "audio_mix_convert"));
        r.push(
            make_caps_filter(
                "audio_mix_caps_filter",
                CapsPlan::new("audio/x-raw").number("channels", DEFAULT_AUDIO_CHANNELS),
            ),
        );
        r.push(Element::new(audio_settings.codec.encoder.as_str(), "audio_mixer_encoder"));
        r.push(Element::new(audio_settings.codec.parser.as_str(), "audio_mixer_parser"));
        r.push(Element::new("queue", "audio_mixer_post_queue"));
        r.push(make_app_sink("audio_appsink"));
        r
    }
}

fn missing_device(node_name: &str) -> (r: String)
    ensures
        r@ == "Audio device "@ + node_name@ + " doesnt exist"@,
{
    cat(cat("Audio device ", node_name).as_str(), " doesnt exist")
}

/// Where the devices pass the look, each one that is recorded gets its part of the
/// pipeline.
pub proof fn law_checked_devices_are_found(node: AudioNode, manager: PipewireManager)
    requires
        node.enabled,
        device_refusal(node, manager) is None,
    ensures
        crate::pipewire::id_of(manager.state.devices@, node.node_name@) is Some,
{
    crate::pipewire::law_names_and_ids_agree(manager.state.devices@, node.node_name@);
}

/// Of the two devices only what the desktop plays is received where it is played.
pub proof fn law_only_background_captures_sink(
    id: u32,
    node_name: Seq<char>,
    device_type: DefaultDeviceType,
    sample_rate_hz: u64,
)
    ensures
        audio_source_chain(id, node_name, device_type, sample_rate_hz)[0].properties.len() == 3
            <==> device_type is Background,
{
}

/// What the desktop plays is recorded by default where it is played, and the microphone where
/// it records; each is stored under a setting of its own, and where there is no default nothing
/// is stored.
pub proof fn law_defaults_by_device(choice: Option<DeviceChoice>, state: PipewireState)
    ensures
        chooses_default(choice, DefaultDeviceType::Background, state) ==> {
            &&& choice is Some <==> state.default_sink_node_name is Some
            &&& choice is Some ==> choice.unwrap().node_name@
                == state.default_sink_node_name.unwrap()@ && choice.unwrap().setting@
                == "recording.audio.background.node_name"@
        },
        chooses_default(choice, DefaultDeviceType::Microphone, state) ==> {
            &&& choice is Some <==> state.default_source_node_name is Some
            &&& choice is Some ==> choice.unwrap().node_name@
                == state.default_source_node_name.unwrap()@ && choice.unwrap().setting@
                == "recording.audio.microphone.node_name"@
        },
{
}

/// A device is refused exactly where it is to be recorded and none of the known devices has its
/// name; the refusal names it.
pub proof fn law_only_missing_devices_are_refused(node: AudioNode, manager: PipewireManager, k: int)
    ensures
        !node.enabled ==> device_refusal(node, manager) is None,
        0 <= k < manager.state.devices@.len() && manager.state.devices@[k].node_name@
            == node.node_name@ ==> device_refusal(node, manager) is None,
        node.enabled && (forall|i: int|
            0 <= i < manager.state.devices@.len()
                ==> #[trigger] manager.state.devices@[i].node_name@ != node.node_name@)
            ==> device_refusal(node, manager) is Some,
        device_refusal(node, manager) matches Some(why) ==> crate::text::has_text(
            why,
            node.node_name@,
        ),
{
    crate::text::law_text_is_found_where_it_stands(
        "Audio device "@,
        node.node_name@,
        " doesnt exist"@,
    );
}

/// A device was settled on where it was never chosen or one of the known devices has its name,
/// and no further device changes that.
pub proof fn law_settled_devices_stay_settled(
    name: Seq<char>,
    state: PipewireState,
    more: PipewireState,
    added: Seq<crate::pipewire::PipewireDevice>,
)
    requires
        more.devices@ == state.devices@ + added,
    ensures
        name.len() == 0 ==> is_settled(name, state),
        is_settled(name, state) ==> is_settled(name, more),
        is_settled(name, state) && name.len() > 0 ==> exists|i: int|
            0 <= i < state.devices@.len() && #[trigger] state.devices@[i].node_name@ == name,
        forall|i: int|
            0 <= i < added.len() && #[trigger] added[i].node_name@ == name ==> is_settled(
                name,
                more,
            ),
{
    if is_settled(name, state) && name.len() > 0 {
        let i = choose|i: int|
            0 <= i < state.devices@.len() && #[trigger] state.devices@[i].node_name@ == name;
        assert(more.devices@[i].node_name@ == name);
    }
    assert forall|i: int|
        0 <= i < added.len() && #[trigger] added[i].node_name@ == name implies is_settled(
        name,
        more,
    ) by {
        assert(more.devices@[state.devices@.len() + i].node_name@ == name);
    }
}

/// A device is received by the number under which the audio server knows it, with the time of
/// each sample, and is brought to the rate of the settings and to two channels; nothing else in
/// the plan asks for a rate or for channels.
pub proof fn law_device_is_received_as_set(
    id: u32,
    node_name: Seq<char>,
    device_type: DefaultDeviceType,
    sample_rate_hz: u64,
)
    requires
        sample_rate_hz <= i32::MAX,
    ensures
        ({
            let chain = audio_source_chain(id, node_name, device_type, sample_rate_hz);
            let sink_only = crate::pipeline::PropView::Flagged(
                "properties"@,
                "stream.capture.sink"@,
                true,
            );
            &&& chain[0].factory == "pipewiresrc"@
            &&& chain[0].properties.contains(
                ("target-object"@, crate::pipeline::PropView::Text(crate::text::decimal(id as nat))),
            )
            &&& chain[0].properties.contains(
                ("do-timestamp"@, crate::pipeline::PropView::Bool(true)),
            )
            &&& device_type is Background ==> chain[0].properties.contains(
                ("stream-properties"@, sink_only),
            )
            &&& exists|f: int|
                #![trigger chain[f]]
                0 < f < chain.len() && chain[f].factory == "capsfilter"@ && crate::pipeline::asks(
                    chain[f],
                    "rate"@,
                    crate::pipeline::FieldView::Int(sample_rate_hz as i32),
                ) && crate::pipeline::asks(
                    chain[f],
                    "channels"@,
                    crate::pipeline::FieldView::Int(2),
                )
            &&& forall|f: int, value: crate::pipeline::FieldView|
                0 <= f < chain.len() && #[trigger] crate::pipeline::asks(chain[f], "rate"@, value)
                    ==> value == crate::pipeline::FieldView::Int(sample_rate_hz as i32)
            &&& forall|f: int, value: crate::pipeline::FieldView|
                0 <= f < chain.len() && #[trigger] crate::pipeline::asks(
                    chain[f],
                    "channels"@,
                    value,
                ) ==> value == crate::pipeline::FieldView::Int(2)
        }),
{
    let chain = audio_source_chain(id, node_name, device_type, sample_rate_hz);
    lemma_sound_fields_differ();
    assert(chain[0].properties[0] == ("do-timestamp"@, crate::pipeline::PropView::Bool(true)));
    assert(chain[0].properties[1] == (
        "target-object"@,
        crate::pipeline::PropView::Text(crate::text::decimal(id as nat)),
    ));
    if device_type is Background {
        assert(chain[0].properties[2].0 == "stream-properties"@);
        assert(chain[0].properties.contains(chain[0].properties[2]));
    }
    let e = chain[2];
    assert(crate::pipeline::fields_of(e, 0)[0] == (
        "rate"@,
        crate::pipeline::FieldView::Int(sample_rate_hz as i32),
    ));
    assert(crate::pipeline::fields_of(e, 0)[1] == (
        "channels"@,
        crate::pipeline::FieldView::Int(2),
    ));
    assert(e.properties[0].0 == "caps"@);
    assert forall|f: int, key: Seq<char>, value: crate::pipeline::FieldView|
        0 <= f < chain.len() && #[trigger] crate::pipeline::asks(
            chain[f],
            key,
            value,
        ) implies f == 2 && ((key == "rate"@ && value == crate::pipeline::FieldView::Int(
        sample_rate_hz as i32,
    )) || (key == "channels"@ && value == crate::pipeline::FieldView::Int(2))) by {
        let (p, g) = choose|p: int, g: int|
            #![trigger chain[f].properties[p], crate::pipeline::fields_of(chain[f], p)[g]]
            0 <= p < chain[f].properties.len() && 0 <= g < crate::pipeline::fields_of(
                chain[f],
                p,
            ).len() && crate::pipeline::fields_of(chain[f], p)[g] == (key, value);
        assert(crate::pipeline::fields_of(chain[f], p).len() > 0);
    }
}

proof fn lemma_sound_fields_differ()
    ensures
        "rate"@ != "channels"@,
{
    reveal_strlit("rate");
    reveal_strlit("channels");
    assert("rate"@.len() == 4);
    assert("channels"@.len() == 8);
}

/// The mix has two channels, is encoded and then parsed by what the settings name, and goes to
/// the ring buffer, which drops none of it.
pub proof fn law_mix_is_encoded_as_set(settings: AudioSettings)
    ensures
        ({
            let chain = mix_chain(settings);
            &&& chain[0].factory == "audiomixer"@
            &&& exists|e: int|
                #![trigger chain[e]]
                0 < e < chain.len() - 1 && chain[e].factory == settings.codec.encoder@ && chain[e
                    + 1].factory == settings.codec.parser@ && crate::pipeline::asks(
                    chain[e - 1],
                    "channels"@,
                    crate::pipeline::FieldView::Int(2),
                )
            &&& chain.last().factory == "appsink"@
            &&& chain.last().properties.contains(
                ("drop"@, crate::pipeline::PropView::Bool(false)),
            )
        }),
{
    let chain = mix_chain(settings);
    let filter = chain[2];
    assert(filter.properties[0].0 == "caps"@);
    assert(crate::pipeline::fields_of(filter, 0)[0] == (
        "channels"@,
        crate::pipeline::FieldView::Int(2),
    ));
    assert(chain[3].factory == settings.codec.encoder@);
    assert(chain[4].factory == settings.codec.parser@);
    assert(chain.last().properties[0] == ("drop"@, crate::pipeline::PropView::Bool(false)));
}

/// The elements of two devices with two names that are fit for elements have two names.
pub proof fn law_devices_have_elements_of_their_own(
    a: u32,
    b: u32,
    name: Seq<char>,
    other: Seq<char>,
    device_type: DefaultDeviceType,
    other_type: DefaultDeviceType,
    sample_rate_hz: u64,
    i: int,
)
    requires
        0 <= i < 5,
        crate::text::sanitised(name) != crate::text::sanitised(other),
    ensures
        audio_source_chain(a, name, device_type, sample_rate_hz).len() == 5,
        audio_source_chain(a, name, device_type, sample_rate_hz)[i].name != audio_source_chain(
            b,
            other,
            other_type,
            sample_rate_hz,
        )[i].name,
{
    let x = crate::text::sanitised(name);
    let y = crate::text::sanitised(other);
    let head = if i == 0 {
        "audio_src_"@
    } else if i == 1 {
        "audio_queue_"@
    } else if i == 2 {
        "audio_caps_"@
    } else if i == 3 {
        "audio_convert_"@
    } else {
        "audio_resample_"@
    };
    assert(audio_source_chain(a, name, device_type, sample_rate_hz)[i].name == Some(head + x));
    assert(audio_source_chain(b, other, other_type, sample_rate_hz)[i].name == Some(head + y));
    if head + x == head + y {
        assert(x =~= (head + x).subrange(head.len() as int, (head + x).len() as int));
        assert(y =~= (head + y).subrange(head.len() as int, (head + y).len() as int));
    }
}

/// Recording goes on exactly where each device that is to be recorded is known to the audio
/// server; else the missing one is named, the microphone before the other. A default is stored
/// exactly for a device that was never chosen and has one: what records for the microphone, what
/// plays for the desktop.
pub proof fn law_look_at_the_devices(
    check: AudioCheck,
    manager: PipewireManager,
    seen: PipewireState,
    settings: AudioSettings,
)
    requires
        check.follows_from(manager, seen, settings),
    ensures
        ({
            let devices = manager.state.devices@;
            let microphone_missing = settings.microphone.enabled && forall|i: int|
                0 <= i < devices.len() ==> #[trigger] devices[i].node_name@
                    != settings.microphone.node_name@;
            let background_missing = settings.background.enabled && forall|i: int|
                0 <= i < devices.len() ==> #[trigger] devices[i].node_name@
                    != settings.background.node_name@;
            &&& check.verdict is Ok <==> !microphone_missing && !background_missing
            &&& microphone_missing ==> (check.verdict matches Err(WayclipError::Audio(m))
                && crate::text::has_text(m@, settings.microphone.node_name@))
            &&& background_missing && !microphone_missing ==> (
            check.verdict matches Err(WayclipError::Audio(m)) && crate::text::has_text(
                m@,
                settings.background.node_name@,
            ))
            &&& check.microphone is Some <==> settings.microphone.node_name@.len() == 0
                && seen.default_source_node_name is Some
            &&& check.background is Some <==> settings.background.node_name@.len() == 0
                && seen.default_sink_node_name is Some
            &&& check.microphone matches Some(c) ==> c.node_name@
                == seen.default_source_node_name.unwrap()@
            &&& check.background matches Some(c) ==> c.node_name@
                == seen.default_sink_node_name.unwrap()@
        }),
{
    law_only_missing_devices_are_refused(settings.microphone, manager, 0);
    law_only_missing_devices_are_refused(settings.background, manager, 0);
    law_defaults_by_device(check.microphone, seen);
    law_defaults_by_device(check.background, seen);
}

} // verus!
