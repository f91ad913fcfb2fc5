//! Whether the machine has all that recording needs.

use crate::pipewire::PipewireState;
use crate::settings::{AudioCodec, CodecType, VideoCodec, VideoFormat};
use crate::text::{cat, is_empty};
use vstd::prelude::*;

verus! {

/// The seconds that are waited for the screen sharing service.
pub const XDG_PORTAL_TIMEOUT_S: u64 = 4;

/// The device of a graphics processor that encodes through the video acceleration
/// interface.
pub const VAAPI_DEVICE: &'static str = "/dev/dri/renderD128";

/// The device of the NVIDIA driver.
pub const NVIDIA_DEVICE: &'static str = "/dev/nvidia0";

/// The outcome of one check.
#[derive(Debug)]
pub struct DoctorResult {
    /// What was checked.
    pub name: String,
    /// Whether it is there.
    pub ok: bool,
    /// Whether recording needs it.
    pub required: bool,
    /// What is wrong.
    pub details: Option<String>,
}

/// What a [`DoctorResult`] says.
pub struct ResultView {
    /// What was checked.
    pub name: Seq<char>,
    /// Whether it is there.
    pub ok: bool,
    /// Whether recording needs it.
    pub required: bool,
    /// What is wrong.
    pub details: Option<Seq<char>>,
}

impl View for DoctorResult {
    type V = ResultView;

    open spec fn view(&self) -> ResultView {
        ResultView {
            name: self.name@,
            ok: self.ok,
            required: self.required,
            details: match self.details {
                Some(d) => Some(d@),
                None => None,
            },
        }
    }
}

/// What a list of outcomes says.
pub open spec fn results_view(results: Seq<DoctorResult>) -> Seq<ResultView> {
    results.map_values(|r: DoctorResult| r@)
}

/// A check that passed.
pub open spec fn passed(name: Seq<char>, required: bool) -> ResultView {
    ResultView { name, ok: true, required, details: None }
}

/// A check that failed, for this reason.
pub open spec fn failed(name: Seq<char>, required: bool, details: Seq<char>) -> ResultView {
    ResultView { name, ok: false, required, details: Some(details) }
}

/// A check that failed for this reason unless it passed.
pub open spec fn outcome(
    name: Seq<char>,
    ok: bool,
    required: bool,
    details: Seq<char>,
) -> ResultView {
    if ok {
        passed(name, required)
    } else {
        failed(name, required, details)
    }
}

impl DoctorResult {
    /// A check that passed.
    pub fn passed(name: &str, required: bool) -> (r: DoctorResult)
        ensures
            r@ == passed(name@, required),
    {
        DoctorResult { name: name.to_owned(), ok: true, required, details: None }
    }

    /// A check that failed, for this reason.
    pub fn failed(name: &str, required: bool, details: &str) -> (r: DoctorResult)
        ensures
            r@ == failed(name@, required, details@),
    {
        DoctorResult {
            name: name.to_owned(),
            ok: false,
            required,
            details: Some(details.to_owned()),
        }
    }

    /// A check that failed for this reason unless it passed.
    pub fn outcome(name: &str, ok: bool, required: bool, details: &str) -> (r: DoctorResult)
        ensures
            r@ == outcome(name@, ok, required, details@),
    {
        if ok {
            DoctorResult::passed(name, required)
        } else {
            DoctorResult::failed(name, required, details)
        }
    }
}

/// How the screen sharing service answered.
#[derive(Debug)]
pub enum PortalProbe {
    /// It is there.
    Answered,
    /// It answered with this error.
    Refused(String),
    /// It did not answer in time.
    TimedOut,
}

/// How the helper program `ffmpeg` ran.
#[derive(Debug)]
pub enum CommandProbe {
    /// It ran well.
    Success,
    /// It ended with this status.
    Failure(String),
    /// It could not be run.
    Missing,
}

/// What was found of a directory.
#[derive(Debug)]
pub enum DirectoryProbe {
    /// It is not there, or no directory.
    Missing,
    /// A file could be written to it.
    Writable,
    /// No file could be written to it, for this reason.
    Refused(String),
}

/// What was found of the audio server.
#[derive(Debug)]
pub enum NodesProbe {
    /// It cannot be followed, for this reason.
    Failed(String),
    /// It has these devices.
    Seen(PipewireState),
}

/// What was found on the machine.
#[derive(Debug)]
pub struct Probes {
    /// The directory of sockets.
    pub runtime_dir: String,
    /// Whether the audio server's socket is in it.
    pub pipewire_socket: bool,
    /// How the screen sharing service answered.
    pub portal: PortalProbe,
    /// How `ffmpeg` ran.
    pub ffmpeg: CommandProbe,
    /// Whether the address of the session bus is known.
    pub dbus_address: bool,
    /// Why a message could not be sent, if it could not.
    pub notification_error: Option<String>,
    /// Whether the device that encodes is there.
    pub backend_device: bool,
    /// The directory of clips.
    pub clip_directory: DirectoryProbe,
    /// The directory of descriptions.
    pub metadata_directory: DirectoryProbe,
    /// The directory of previews.
    pub preview_directory: DirectoryProbe,
    /// Which kinds of elements are there.
    pub elements: Vec<bool>,
    /// The audio devices.
    pub nodes: NodesProbe,
}

/// What recording needs under the present settings.
#[derive(Debug)]
pub struct Doctor {
    /// The audio codec.
    pub audio_codec: AudioCodec,
    /// The video codec.
    pub video_codec: VideoCodec,
    /// The container.
    pub video_format: VideoFormat,
    /// Where clips go.
    pub clip_directory: String,
    /// Where previews go.
    pub preview_directory: String,
    /// Where descriptions go.
    pub metadata_directory: String,
    /// The microphone, and whether it is recorded.
    pub microphone: (String, bool),
    /// What the desktop plays, and whether it is recorded.
    pub background: (String, bool),
}

/// How many kinds of elements are checked.
pub const ELEMENT_CHECKS: usize = 16;

impl Doctor {
    /// The kinds of elements that are checked, each with whether recording needs it.
    pub open spec fn elements(&self) -> Seq<(Seq<char>, bool)> {
        seq![
            ("pipewiresrc"@, true),
            ("watchdog"@, true),
            ("queue"@, true),
            ("capsfilter"@, true),
            ("appsink"@, true),
            ("videoconvert"@, true),
            ("videoscale"@, true),
            ("videorate"@, true),
            (self.video_codec.parser@, true),
            (self.video_codec.encoder@, true),
            (self.video_format.mux@, true),
            (self.audio_codec.parser@, true),
            (self.audio_codec.encoder@, true),
            ("nvh264enc"@, false),
            ("vah264enc"@, false),
            ("x264enc"@, false),
        ]
    }

    /// The kinds of elements that are checked, each with whether recording needs it.
    pub fn element_checks(&self) -> (r: Vec<(&str, bool)>)
        ensures
            r@.len() == ELEMENT_CHECKS,
            forall|i: int|
                0 <= i < ELEMENT_CHECKS ==> (#[trigger] r@[i]).0@ == self.elements()[i].0
                    && r@[i].1 == self.elements()[i].1,
    {
        let mut r: Vec<(&str, bool)> = Vec::new();
        r.push(("pipewiresrc", true));
        r.push(("watchdog", true));
        r.push(("queue", true));
        r.push(("capsfilter", true));
        r.push(("appsink", true));
        r.push(("videoconvert", true));
        r.push(("videoscale", true));
        r.push(("videorate", true));
        r.push((self.video_codec.parser.as_str(), true));
        r.push((self.video_codec.encoder.as_str(), true));
        r.push((self.video_format.mux.as_str(), true));
        r.push((self.audio_codec.parser.as_str(), true));
        r.push((self.audio_codec.encoder.as_str(), true));
        r.push(("nvh264enc", false));
        r.push(("vah264enc", false));
        r.push(("x264enc", false));
        r
    }

    /// The device that encodes, where it is not the processor.
    pub fn backend_path(&self) -> (r: Option<&'static str>)
        ensures
            match self.video_codec.backend {
                CodecType::VAAPI => r matches Some(p) && p@ == "/dev/dri/renderD128"@,
                CodecType::NVIDIA => r matches Some(p) && p@ == "/dev/nvidia0"@,
                CodecType::Software => r is None,
            },
    {
        match self.video_codec.backend {
            CodecType::VAAPI => Some(VAAPI_DEVICE),
            CodecType::NVIDIA => Some(NVIDIA_DEVICE),
            CodecType::Software => None,
        }
    }

    /// Where the audio server listens, given the directory of what belongs to the session.
    pub fn pipewire_socket(runtime_dir: &str) -> (r: String)
        ensures
            r@ == runtime_dir@ + "/pipewire-0"@,
    {
        cat(runtime_dir, "/pipewire-0")
    }

    /// Whether the audio server runs.
    pub fn check_pipewire(&self, runtime_dir: &str, socket_exists: bool) -> (r: DoctorResult)
        ensures
            r@ == pipewire_result(runtime_dir@, socket_exists),
    {
        let details: String = cat(
            cat("no socket in ", runtime_dir).as_str(),
            " - is pipewire service running?",
        );
        DoctorResult::outcome("PipeWire Socket", socket_exists, true, details.as_str())
    }

    /// Whether there is a session bus.
    pub fn check_dbus(&self, address_known: bool) -> (r: DoctorResult)
        ensures
            r@ == dbus_result(address_known),
    {
        DoctorResult::outcome(
            "D-Bus Session Bus",
            address_known,
            true,
            "DBUS_SESSION_BUS_ADDRESS env var missing",
        )
    }

    /// Whether the screen can be shared.
    pub fn check_portal(&self, probe: &PortalProbe) -> (r: DoctorResult)
        ensures
            r@ == portal_result(*probe),
    {
        let name: &str = "XDG Screencast Portal";
        match probe {
            PortalProbe::Answered => DoctorResult::passed(name, true),
            PortalProbe::Refused(e) => DoctorResult::failed(name, true, e.as_str()),
            PortalProbe::TimedOut => DoctorResult::failed(
                name,
                true,
                "tokio time out - is xdg portal running?",
            ),
        }
    }

    /// Whether `ffmpeg` is there.
    pub fn check_ffmpeg(&self, probe: &CommandProbe) -> (r: DoctorResult)
        ensures
            r@ == ffmpeg_result(*probe),
    {
        let name: &str = "FFmpeg";
        match probe {
            CommandProbe::Success => DoctorResult::passed(name, true),
            CommandProbe::Failure(status) => DoctorResult::failed(name, true, status.as_str()),
            CommandProbe::Missing => DoctorResult::failed(name, true, "not found in $PATH"),
        }
    }

    /// Whether the device that encodes is there, where it is not the processor.
    pub fn check_backend(&self, device_exists: bool) -> (r: Option<DoctorResult>)
        ensures
            match (r, backend_result(self.video_codec.backend, device_exists)) {
                (Some(a), Some(b)) => a@ == b,
                (None, None) => true,
                _ => false,
            },
    {
        match self.video_codec.backend {
            CodecType::VAAPI => Some(
                DoctorResult::outcome(
                    "VAAPI Render Node",
                    device_exists,
                    true,
                    "VAAPI backend '/dev/dri/renderD128' not found",
                ),
            ),
            CodecType::NVIDIA => Some(
                DoctorResult::outcome(
                    "NVIDIA Device ",
                    device_exists,
                    true,
                    "NVIDIA driver '/dev/nvidia0' not found",
                ),
            ),
            CodecType::Software => None,
        }
    }

    /// Whether files can be written to a directory.
    pub fn check_directory(&self, name: &str, path: &str, probe: &DirectoryProbe) -> (r:
        DoctorResult)
        ensures
            r@ == directory_result(name@, path@, *probe),
    {
        match probe {
            DirectoryProbe::Missing => DoctorResult::failed(
                name,
                true,
                cat(path, " missing or not a dir").as_str(),
            ),
            DirectoryProbe::Writable => DoctorResult::passed(name, true),
            DirectoryProbe::Refused(e) => DoctorResult::failed(name, true, e.as_str()),
        }
    }

    /// Whether files can be written where the daemon writes them.
    pub fn check_output_directories(
        &self,
        clip: &DirectoryProbe,
        metadata: &DirectoryProbe,
        preview: &DirectoryProbe,
    ) -> (r: Vec<DoctorResult>)
        ensures
            results_view(r@) == self.directory_results(*clip, *metadata, *preview),
    {
        let mut r: Vec<DoctorResult> = Vec::new();
        r.push(self.check_directory("Video Directory", self.clip_directory.as_str(), clip));
        r.push(
            self.check_directory("Metadata Directory", self.metadata_directory.as_str(), metadata),
        );
        r.push(self.check_directory("Preview Directory", self.preview_directory.as_str(), preview));
        assert(results_view(r@) =~= self.directory_results(*clip, *metadata, *preview));
        r
    }

    /// What is said of the directories.
    pub open spec fn directory_results(
        &self,
        clip: DirectoryProbe,
        metadata: DirectoryProbe,
        preview: DirectoryProbe,
    ) -> Seq<ResultView> {
        seq![
            directory_result("Video Directory"@, self.clip_directory@, clip),
            directory_result("Metadata Directory"@, self.metadata_directory@, metadata),
            directory_result("Preview Directory"@, self.preview_directory@, preview),
        ]
    }

    /// Whether a kind of element is there.
    pub fn check_element(&self, name: &str, required: bool, found: bool) -> (r: DoctorResult)
        ensures
            r@ == element_result(name@, required, found),
    {
        DoctorResult::outcome(
            cat("GStreamer Element ", name).as_str(),
            found,
            required,
            "relevant gstreamer package missing",
        )
    }

    /// What is said of the kinds of elements.
    pub open spec fn element_results(&self, found: Seq<bool>) -> Seq<ResultView> {
        Seq::new(
            ELEMENT_CHECKS as nat,
            |i: int| element_result(self.elements()[i].0, self.elements()[i].1, found[i]),
        )
    }

    /// Whether the kinds of elements are there; `found` tells it of each, in the order of
    /// [`Doctor::element_checks`].
    pub fn check_gstreamer_elements(&self, found: &Vec<bool>) -> (r: Vec<DoctorResult>)
        requires
            found@.len() == ELEMENT_CHECKS,
        ensures
            results_view(r@) == self.element_results(found@),
    {
        let checks: Vec<(&str, bool)> = self.element_checks();
        let mut r: Vec<DoctorResult> = Vec::new();
        let mut i: usize = 0;
        while i < ELEMENT_CHECKS
            invariant
                found@.len() == ELEMENT_CHECKS,
                checks@.len() == ELEMENT_CHECKS,
                forall|k: int|
                    0 <= k < ELEMENT_CHECKS ==> (#[trigger] checks@[k]).0@ == self.elements()[k].0
                        && checks@[k].1 == self.elements()[k].1,
                i <= ELEMENT_CHECKS,
                r@.len() == i,
                forall|k: int|
                    0 <= k < i ==> (#[trigger] r@[k])@ == self.element_results(found@)[k],
            decreases ELEMENT_CHECKS - i,
        {
            r.push(self.check_element(checks[i].0, checks[i].1, found[i]));
            i = i + 1;
        }
        assert(results_view(r@) =~= self.element_results(found@));
        r
    }

    /// Whether a chosen device is there.
    fn check_node(&self, kind: &str, node: &(String, bool), state: &PipewireState) -> (r:
        DoctorResult)
        ensures
            r@ == node_result(kind@, node.0@, node.1, *state),
    {
        let there: bool = !is_empty(node.0.as_str()) && state.has_device(node.0.as_str());
        let name: String = cat(cat(kind, " Node - ").as_str(), node.0.as_str());
        let details: String = cat("Invalid pipewire node: ", node.0.as_str());
        DoctorResult::outcome(name.as_str(), there, node.1, details.as_str())
    }

    /// What is said of the chosen devices.
    pub open spec fn node_results(&self, probe: NodesProbe) -> Seq<ResultView> {
        match probe {
            NodesProbe::Failed(e) => seq![failed("Pipewire Manager"@, true, e@)],
            NodesProbe::Seen(state) => seq![
                node_result("Microphone"@, self.microphone.0@, self.microphone.1, state),
                node_result("Background"@, self.background.0@, self.background.1, state),
            ],
        }
    }

    /// Whether the chosen devices are there.
    pub fn check_pipewire_nodes(&self, probe: &NodesProbe) -> (r: Vec<DoctorResult>)
        ensures
            results_view(r@) == self.node_results(*probe),
    {
        let mut r: Vec<DoctorResult> = Vec::new();
        match probe {
            NodesProbe::Failed(e) => {
                r.push(DoctorResult::failed("Pipewire Manager", true, e.as_str()));
            },
            NodesProbe::Seen(state) => {
                r.push(self.check_node("Microphone", &self.microphone, state));
                r.push(self.check_node("Background", &self.background, state));
            },
        }
        assert(results_view(r@) =~= self.node_results(*probe));
        r
    }

    /// Whether messages can be sent.
    pub fn check_notification(&self, error: &Option<String>) -> (r: DoctorResult)
        ensures
            r@ == notification_result(*error),
    {
        match error {
            Some(e) => DoctorResult::failed("Notification Manager", false, e.as_str()),
            None => DoctorResult::passed("Notification Manager", false),
        }
    }

    /// All that is said of the machine, in order.
    pub open spec fn all_results(&self, probes: Probes) -> Seq<ResultView> {
        seq![
            pipewire_result(probes.runtime_dir@, probes.pipewire_socket),
            portal_result(probes.portal),
            ffmpeg_result(probes.ffmpeg),
            dbus_result(probes.dbus_address),
            notification_result(probes.notification_error),
        ] + (match backend_result(self.video_codec.backend, probes.backend_device) {
            Some(b) => seq![b],
            None => seq![],
        }) + self.directory_results(
            probes.clip_directory,
            probes.metadata_directory,
            probes.preview_directory,
        ) + self.element_results(probes.elements@) + self.node_results(probes.nodes)
    }

    /// Says all that is to be said of the machine, in order.
    pub fn run_all_checks(&self, probes: &Probes) -> (r: Vec<DoctorResult>)
        requires
            probes.elements@.len() == ELEMENT_CHECKS,
        ensures
            results_view(r@) == self.all_results(*probes),
    {
        let mut checks: Vec<DoctorResult> = Vec::new();
        checks.push(self.check_pipewire(probes.runtime_dir.as_str(), probes.pipewire_socket));
        checks.push(self.check_portal(&probes.portal));
        checks.push(self.check_ffmpeg(&probes.ffmpeg));
        checks.push(self.check_dbus(probes.dbus_address));
        checks.push(self.check_notification(&probes.notification_error));
        if let Some(backend_result) = self.check_backend(probes.backend_device) {
            checks.push(backend_result);
        }
        let mut directories: Vec<DoctorResult> = self.check_output_directories(
            &probes.clip_directory,
            &probes.metadata_directory,
            &probes.preview_directory,
        );
        let mut elements: Vec<DoctorResult> = self.check_gstreamer_elements(&probes.elements);
        let mut nodes: Vec<DoctorResult> = self.check_pipewire_nodes(&probes.nodes);
        let ghost head = checks@;
        let ghost d = directories@;
        let ghost e = elements@;
        let ghost n = nodes@;
        checks.append(&mut directories);
        checks.append(&mut elements);
        checks.append(&mut nodes);
        assert(results_view(checks@) =~= results_view(head) + results_view(d) + results_view(e)
            + results_view(n));
        assert(results_view(checks@) =~= self.all_results(*probes));
        checks
    }
}

/// What is said of the audio server.
pub open spec fn pipewire_result(runtime_dir: Seq<char>, socket_exists: bool) -> ResultView {
    outcome(
        "PipeWire Socket"@,
        socket_exists,
        true,
        "no socket in "@ + runtime_dir + " - is pipewire service running?"@,
    )
}

/// What is said of the session bus.
pub open spec fn dbus_result(address_known: bool) -> ResultView {
    outcome(
        "D-Bus Session Bus"@,
        address_known,
        true,
        "DBUS_SESSION_BUS_ADDRESS env var missing"@,
    )
}

/// What is said of the screen sharing service.
pub open spec fn portal_result(probe: PortalProbe) -> ResultView {
    match probe {
        PortalProbe::Answered => passed("XDG Screencast Portal"@, true),
        PortalProbe::Refused(e) => failed("XDG Screencast Portal"@, true, e@),
        PortalProbe::TimedOut => failed(
            "XDG Screencast Portal"@,
            true,
            "tokio time out - is xdg portal running?"@,
        ),
    }
}

/// What is said of `ffmpeg`.
pub open spec fn ffmpeg_result(probe: CommandProbe) -> ResultView {
    match probe {
        CommandProbe::Success => passed("FFmpeg"@, true),
        CommandProbe::Failure(status) => failed("FFmpeg"@, true, status@),
        CommandProbe::Missing => failed("FFmpeg"@, true, "not found in $PATH"@),
    }
}

/// What is said of the device that encodes.
pub open spec fn backend_result(backend: CodecType, device_exists: bool) -> Option<ResultView> {
    match backend {
        CodecType::VAAPI => Some(
            outcome(
                "VAAPI Render Node"@,
                device_exists,
                true,
                "VAAPI backend '/dev/dri/renderD128' not found"@,
            ),
        ),
        CodecType::NVIDIA => Some(
            outcome(
                "NVIDIA Device "@,
                device_exists,
                true,
                "NVIDIA driver '/dev/nvidia0' not found"@,
            ),
        ),
        CodecType::Software => None,
    }
}

/// What is said of a directory.
pub open spec fn directory_result(
    name: Seq<char>,
    path: Seq<char>,
    probe: DirectoryProbe,
) -> ResultView {
    match probe {
        DirectoryProbe::Missing => failed(name, true, path + " missing or not a dir"@),
        DirectoryProbe::Writable => passed(name, true),
        DirectoryProbe::Refused(e) => failed(name, true, e@),
    }
}

/// What is said of a kind of element.
pub open spec fn element_result(name: Seq<char>, required: bool, found: bool) -> ResultView {
    outcome(
        "GStreamer Element "@ + name,
        found,
        required,
        "relevant gstreamer package missing"@,
    )
}

/// What is said of a chosen device. One that was never chosen does not count as there.
pub open spec fn node_result(
    kind: Seq<char>,
    node_name: Seq<char>,
    required: bool,
    state: PipewireState,
) -> ResultView {
    outcome(
        kind + " Node - "@ + node_name,
        node_name.len() > 0 && crate::pipewire::has_name(state.devices@, node_name),
        required,
        "Invalid pipewire node: "@ + node_name,
    )
}

/// What is said of messages.
pub open spec fn notification_result(error: Option<String>) -> ResultView {
    match error {
        Some(e) => failed("Notification Manager"@, false, e@),
        None => passed("Notification Manager"@, false),
    }
}

/// Every outcome tells what is wrong exactly when something is.
pub proof fn law_failures_are_explained(doctor: Doctor, probes: Probes, i: int)
    requires
        0 <= i < doctor.all_results(probes).len(),
    ensures
        doctor.all_results(probes)[i].ok <==> doctor.all_results(probes)[i].details is None,
{
}

/// Where the processor encodes, every kind of element of the video part is checked as one
/// that recording needs.
pub proof fn law_software_pipeline_is_checked(
    doctor: Doctor,
    fd: i32,
    id: Seq<char>,
    resolution: (u64, u64),
    fps: u64,
    bitrate_kbps: u64,
    parallelism: Option<usize>,
    i: int,
)
    requires
        doctor.video_codec.backend is Software,
        0 <= i < crate::video::video_chain(
            fd,
            id,
            doctor.video_codec,
            resolution,
            fps,
            bitrate_kbps,
            parallelism,
        ).len(),
    ensures
        doctor.elements().contains(
            (
                crate::video::video_chain(
                    fd,
                    id,
                    doctor.video_codec,
                    resolution,
                    fps,
                    bitrate_kbps,
                    parallelism,
                )[i].factory,
                true,
            ),
        ),
{
    let chain = crate::video::video_chain(
        fd,
        id,
        doctor.video_codec,
        resolution,
        fps,
        bitrate_kbps,
        parallelism,
    );
    let e = doctor.elements();
    assert(e.contains(e[0]) && e.contains(e[1]) && e.contains(e[2]) && e.contains(e[3])
        && e.contains(e[4]) && e.contains(e[5]) && e.contains(e[6]) && e.contains(e[7])
        && e.contains(e[8]) && e.contains(e[9]));
    assert(chain.len() == 13 + crate::video::parser_part(doctor.video_codec).len());
}

/// What is said first is whether the audio server, the screen sharing service, the helper, the
/// session bus and the messages are there, each as it was found; all but the messages are needed.
pub proof fn law_services_are_told_as_found(doctor: Doctor, probes: Probes)
    ensures
        ({
            let said = doctor.all_results(probes);
            &&& said[0].ok == probes.pipewire_socket
            &&& said[1].ok <==> probes.portal is Answered
            &&& said[2].ok <==> probes.ffmpeg is Success
            &&& said[3].ok == probes.dbus_address
            &&& said[4].ok <==> probes.notification_error is None
            &&& said[0].required && said[1].required && said[2].required && said[3].required
            &&& !said[4].required
            &&& probes.portal matches PortalProbe::Refused(e) ==> said[1].details == Some(e@)
            &&& probes.ffmpeg matches CommandProbe::Failure(e) ==> said[2].details == Some(e@)
            &&& probes.notification_error matches Some(e) ==> said[4].details == Some(e@)
        }),
{
}

/// The device that encodes is told of, as one that is needed, exactly where it is not the
/// processor; all else is told of in any case.
pub proof fn law_encoding_device_is_told(doctor: Doctor, probes: Probes)
    ensures
        ({
            let said = doctor.all_results(probes);
            let nodes: int = if probes.nodes is Seen {
                2
            } else {
                1
            };
            &&& doctor.video_codec.backend is Software ==> said.len() == 5 + 3 + 16 + nodes
            &&& !(doctor.video_codec.backend is Software) ==> {
                &&& said.len() == 5 + 1 + 3 + 16 + nodes
                &&& said[5].ok == probes.backend_device
                &&& said[5].required
            }
        }),
{
}

/// A directory passes exactly where a file could be written to it; where it is missing, it is
/// named, and where it refused, the reason is told.
pub proof fn law_directories_are_told_as_found(
    doctor: Doctor,
    clip: DirectoryProbe,
    metadata: DirectoryProbe,
    preview: DirectoryProbe,
)
    ensures
        ({
            let said = doctor.directory_results(clip, metadata, preview);
            &&& said.len() == 3
            &&& said[0].ok <==> clip is Writable
            &&& said[1].ok <==> metadata is Writable
            &&& said[2].ok <==> preview is Writable
            &&& said[0].required && said[1].required && said[2].required
            &&& clip is Missing ==> crate::text::begins_with(
                said[0].details.unwrap(),
                doctor.clip_directory@,
            )
            &&& metadata is Missing ==> crate::text::begins_with(
                said[1].details.unwrap(),
                doctor.metadata_directory@,
            )
            &&& preview is Missing ==> crate::text::begins_with(
                said[2].details.unwrap(),
                doctor.preview_directory@,
            )
            &&& clip matches DirectoryProbe::Refused(e) ==> said[0].details == Some(e@)
            &&& metadata matches DirectoryProbe::Refused(e) ==> said[1].details == Some(e@)
            &&& preview matches DirectoryProbe::Refused(e) ==> said[2].details == Some(e@)
        }),
{
    let tail = " missing or not a dir"@;
    crate::text::law_text_is_found_where_it_stands(tail, doctor.clip_directory@, tail);
    crate::text::law_text_is_found_where_it_stands(tail, doctor.metadata_directory@, tail);
    crate::text::law_text_is_found_where_it_stands(tail, doctor.preview_directory@, tail);
}

/// Each kind of element is told as it was found, by its name, and the ones that the settings
/// name are needed; of all that are told only three encoders are not needed.
pub proof fn law_elements_are_told_as_found(doctor: Doctor, found: Seq<bool>, i: int)
    requires
        found.len() == 16,
        0 <= i < 16,
    ensures
        doctor.elements().len() == 16,
        doctor.element_results(found).len() == 16,
        doctor.element_results(found)[i].ok == found[i],
        doctor.element_results(found)[i].required == doctor.elements()[i].1,
        crate::text::finishes_with(
            doctor.element_results(found)[i].name,
            doctor.elements()[i].0,
        ),
        doctor.elements().contains((doctor.video_codec.encoder@, true)),
        doctor.elements().contains((doctor.video_codec.parser@, true)),
        doctor.elements().contains((doctor.video_format.mux@, true)),
        doctor.elements().contains((doctor.audio_codec.encoder@, true)),
        doctor.elements().contains((doctor.audio_codec.parser@, true)),
        !doctor.elements()[i].1 ==> doctor.elements()[i].0 == "nvh264enc"@ || doctor.elements()[i].0
            == "vah264enc"@ || doctor.elements()[i].0 == "x264enc"@,
        i < 13 ==> doctor.elements()[i].1,
{
    let e = doctor.elements();
    crate::text::law_text_is_found_where_it_stands("GStreamer Element "@, e[i].0, e[i].0);
    assert(e[8] == (doctor.video_codec.parser@, true));
    assert(e[9] == (doctor.video_codec.encoder@, true));
    assert(e[10] == (doctor.video_format.mux@, true));
    assert(e[11] == (doctor.audio_codec.parser@, true));
    assert(e[12] == (doctor.audio_codec.encoder@, true));
}

/// A chosen device passes exactly where it was chosen and the audio server knows one of its
/// name, and is needed exactly where it is recorded; the microphone is told of before what the
/// desktop plays.
pub proof fn law_devices_are_told_as_found(doctor: Doctor, state: PipewireState)
    ensures
        ({
            let said = doctor.node_results(NodesProbe::Seen(state));
            let microphone = doctor.microphone.0@;
            let background = doctor.background.0@;
            &&& said.len() == 2
            &&& said[0].ok <==> microphone.len() > 0 && exists|i: int|
                0 <= i < state.devices@.len() && #[trigger] state.devices@[i].node_name@
                    == microphone
            &&& said[1].ok <==> background.len() > 0 && exists|i: int|
                0 <= i < state.devices@.len() && #[trigger] state.devices@[i].node_name@
                    == background
            &&& said[0].required == doctor.microphone.1
            &&& said[1].required == doctor.background.1
            &&& crate::text::finishes_with(said[0].name, microphone)
            &&& crate::text::finishes_with(said[1].name, background)
        }),
{
    let microphone = doctor.microphone.0@;
    let background = doctor.background.0@;
    crate::text::law_text_is_found_where_it_stands(
        "Microphone"@ + " Node - "@,
        microphone,
        microphone,
    );
    crate::text::law_text_is_found_where_it_stands(
        "Background"@ + " Node - "@,
        background,
        background,
    );
}

} // verus!
