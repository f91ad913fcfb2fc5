//! The state of the daemon, and how it starts, recovers and stops.

use crate::capture::{FlowError, Sample};
use crate::chance::fresh_id;
use crate::clock::{ClockTime, Moment, SECOND_NS};
use crate::discord::DiscordPresenceManager;
use crate::discovery::{ClipsGames, Discovery};
use crate::error::WayclipError;
use crate::notifications::{NotificationEvent, NotificationManager, Reaction};
use crate::pipeline::Chain;
use crate::pipewire::PipewireManager;
use crate::remux::{first_failure, BusMessage};
use crate::ring::{ContentType, RingBuffer};
use crate::settings::{NotificationSettings, OutputSettings, RecordingConfig};
use crate::text::{cat, decimal_text};
use vstd::prelude::*;

verus! {

/// The seconds that the capture pipeline gets to start.
pub const CAPTURE_START_TIMEOUT_S: u64 = 10;

/// How often an old pipeline is asked to stop before it is given up.
pub const TEARDOWN_ATTEMPTS: u32 = 5;

/// What the daemon does at the moment.
#[derive(Clone, Copy, Debug, PartialEq, Eq, Structural)]
pub enum DaemonStatus {
    /// It records.
    Active,
    /// It does nothing.
    Inactive,
    /// It records and writes a clip.
    Saving,
    /// It starts.
    Activating,
    /// It stops.
    Deactivating,
    /// The last operation failed.
    Failed,
}

impl DaemonStatus {
    /// The word for the status.
    pub open spec fn word(self) -> Seq<char> {
        match self {
            DaemonStatus::Active => "Active"@,
            DaemonStatus::Inactive => "Inactive"@,
            DaemonStatus::Saving => "Saving"@,
            DaemonStatus::Activating => "Activating"@,
            DaemonStatus::Deactivating => "Deactivating"@,
            DaemonStatus::Failed => "Failed"@,
        }
    }

    /// The word for the status.
    pub fn name(self) -> (r: &'static str)
        ensures
            r@ == self.word(),
    {
        match self {
            DaemonStatus::Active => "Active",
            DaemonStatus::Inactive => "Inactive",
            DaemonStatus::Saving => "Saving",
            DaemonStatus::Activating => "Activating",
            DaemonStatus::Deactivating => "Deactivating",
            DaemonStatus::Failed => "Failed",
        }
    }
}

/// Which of the two recorded audio devices is meant.
#[derive(Clone, Copy, Debug, PartialEq, Eq, Structural)]
pub enum DefaultDeviceType {
    /// The microphone.
    Microphone,
    /// What the desktop plays.
    Background,
}

/// The screen that is shared with the daemon.
#[derive(Debug)]
pub struct ScreencastNegotiation {
    /// The descriptor through which it is received.
    pub pipewire_file_descriptor: i32,
    /// The node from which it is received.
    pub pipewire_node_id: String,
    /// What brings the same screen back without asking, if it is known.
    pub restore_token: Option<String>,
}

/// The elements that record: the screen, the audio devices that are there, and the mix.
#[derive(Debug)]
pub struct CapturePlan {
    /// From the screen to its sink.
    pub video: Chain,
    /// From the mixer to its sink.
    pub mix: Chain,
    /// From the microphone to the mixer.
    pub microphone: Option<Chain>,
    /// From what the desktop plays to the mixer.
    pub background: Option<Chain>,
}

/// The state of the daemon.
#[derive(Debug)]
pub struct DaemonCore {
    /// The name of this daemon.
    pub id: String,
    /// How often the capture pipeline was built anew.
    pub generation: u64,
    /// When the last video frame came, in milliseconds since 1970; zero for none yet.
    pub last_video_frame_time: u64,
    /// When the last audio frame came, in milliseconds since 1970; zero for none yet.
    pub last_audio_frame_time: u64,
    /// What it does.
    pub status: DaemonStatus,
    /// The game that is being played.
    pub discovery: Discovery,
    /// The recorded past.
    pub ring_buffer: RingBuffer,
    /// Which events the user hears of.
    pub notification_settings: NotificationSettings,
    /// What brings the shared screen back without asking.
    pub restore_token: Option<String>,
    /// The audio devices.
    pub pipewire_manager: PipewireManager,
    /// Whether there is a capture pipeline.
    pub has_pipeline: bool,
    /// Whether the screen sharing service is connected.
    pub has_proxy: bool,
    /// Whether the screen is shared.
    pub has_session: bool,
    /// The descriptor through which the screen is received.
    pub pipewire_file_descriptor: Option<i32>,
    /// The node from which the screen is received.
    pub pipewire_node_id: Option<String>,
    /// What Discord shows, if it is to show something.
    pub discord: Option<DiscordPresenceManager>,
    /// What is recorded.
    pub recording_config: RecordingConfig,
    /// Where clips go.
    pub output_config: OutputSettings,
}

impl DaemonCore {
    /// Whether `self` is `before` apart from what it does.
    pub open spec fn same_but_status(&self, before: &DaemonCore) -> bool {
        *self == (DaemonCore { status: self.status, ..*before })
    }

    /// A daemon that does nothing yet and keeps this many seconds.
    pub fn new(
        max_duration: u64,
        notification_settings: NotificationSettings,
        recording_config: RecordingConfig,
        output_config: OutputSettings,
        discord_rich_presence: bool,
        session_env: Option<&str>,
        desktop_env: Option<&str>,
    ) -> (r: DaemonCore)
        requires
            max_duration * SECOND_NS <= u64::MAX,
        ensures
            r.id@.len() == crate::chance::ID_LENGTH,
            r.id@.len() == 21,
            forall|i: int|
                0 <= i < r.id@.len() ==> crate::chance::is_id_char(#[trigger] r.id@[i]),
            r.generation == 1,
            r.last_video_frame_time == 0,
            r.last_audio_frame_time == 0,
            r.status is Inactive,
            r.discovery@ == crate::discovery::DiscoveryView::fresh(session_env, desktop_env),
            r.discovery@.wf(),
            r.ring_buffer.is_fresh(),
            r.ring_buffer.max_duration.ns == max_duration * SECOND_NS,
            r.ring_buffer.max_duration.ns == max_duration * 1_000_000_000,
            r.notification_settings == notification_settings,
            r.restore_token is None,
            r.pipewire_manager.state.devices@.len() == 0,
            r.pipewire_manager.state.default_sink_node_name is None,
            r.pipewire_manager.state.default_source_node_name is None,
            r.pipewire_manager.state.wf(),
            !r.has_pipeline,
            !r.has_proxy,
            !r.has_session,
            r.pipewire_file_descriptor is None,
            r.pipewire_node_id is None,
            r.discord is Some == discord_rich_presence,
            r.discord matches Some(d) ==> d.waiting@.len() == 0,
            r.recording_config == recording_config,
            r.output_config == output_config,
    {
        let discord: Option<DiscordPresenceManager> = if discord_rich_presence {
            Some(DiscordPresenceManager::new())
        } else {
            None
        };
        DaemonCore {
            id: fresh_id(),
            generation: 1,
            last_video_frame_time: 0,
            last_audio_frame_time: 0,
            status: DaemonStatus::Inactive,
            discovery: Discovery::new(session_env, desktop_env),
            ring_buffer: RingBuffer::new(ClockTime::from_seconds(max_duration)),
            notification_settings,
            restore_token: None,
            pipewire_manager: PipewireManager::new(),
            has_pipeline: false,
            has_proxy: false,
            has_session: false,
            pipewire_file_descriptor: None,
            pipewire_node_id: None,
            discord,
            recording_config,
            output_config,
        }
    }

    /// Begins to start, and tells what the user hears of it.
    pub fn init(&mut self) -> (r: Reaction)
        ensures
            final(self).same_but_status(old(self)),
            final(self).status is Activating,
            r == NotificationManager::reaction(
                NotificationEvent::DaemonStart,
                old(self).notification_settings,
            ),
    {
        let r: Reaction = NotificationManager::process_event(
            NotificationEvent::DaemonStart,
            self.notification_settings,
        );
        self.status = DaemonStatus::Activating;
        r
    }

    /// The capture pipeline runs.
    pub fn pipeline_started(&mut self)
        ensures
            *final(self) == (DaemonCore {
                status: DaemonStatus::Active,
                has_pipeline: true,
                ..*old(self)
            }),
    {
        self.status = DaemonStatus::Active;
        self.has_pipeline = true;
    }

    /// Whether `self` is `before` after it took over the shared screen, if it is shared, and
    /// whether the capture pipeline is planned so.
    pub open spec fn has_planned(
        &self,
        before: &DaemonCore,
        screencast: Result<ScreencastNegotiation, WayclipError>,
        config: RecordingConfig,
        parallelism: Option<usize>,
        r: Result<CapturePlan, WayclipError>,
    ) -> bool {
        match screencast {
            Err(e) => {
                &&& self.same_but_status(before)
                &&& self.status is Failed
                &&& r == Err::<CapturePlan, WayclipError>(e)
            },
            Ok(shared) => {
                &&& *self == (DaemonCore {
                    has_proxy: true,
                    has_session: true,
                    pipewire_file_descriptor: Some(shared.pipewire_file_descriptor),
                    pipewire_node_id: Some(shared.pipewire_node_id),
                    restore_token: shared.restore_token,
                    ..*before
                })
                &&& r matches Ok(plan)
                &&& plan.video@ == crate::video::video_chain(
                    shared.pipewire_file_descriptor,
                    shared.pipewire_node_id@,
                    config.codec,
                    config.resolution,
                    config.fps,
                    config.bitrate_kbps,
                    parallelism,
                )
                &&& plan.mix@ == crate::audio::mix_chain(config.audio)
                &&& device_planned(
                    plan.microphone,
                    before.pipewire_manager,
                    config.audio.microphone,
                    DefaultDeviceType::Microphone,
                    config.audio.sample_rate_hz,
                )
                &&& device_planned(
                    plan.background,
                    before.pipewire_manager,
                    config.audio.background,
                    DefaultDeviceType::Background,
                    config.audio.sample_rate_hz,
                )
            },
        }
    }

    /// Takes over the shared screen and plans the capture pipeline.
    ///
    /// Where the screen is not shared the daemon has failed, and the error is handed on.
    pub fn build_full_pipeline(
        &mut self,
        screencast: Result<ScreencastNegotiation, WayclipError>,
        config: &RecordingConfig,
        parallelism: Option<usize>,
    ) -> (r: Result<CapturePlan, WayclipError>)
        ensures
            final(self).has_planned(old(self), screencast, *config, parallelism, r),
    {
        let shared: ScreencastNegotiation = match screencast {
            Ok(s) => s,
            Err(e) => {
                self.status = DaemonStatus::Failed;
                return Err(e);
            },
        };
        self.has_session = true;
        self.has_proxy = true;
        self.pipewire_file_descriptor = Some(shared.pipewire_file_descriptor);
        self.pipewire_node_id = Some(shared.pipewire_node_id);
        self.restore_token = shared.restore_token;
        let video: Chain = match self.build_video_pipeline(
            &config.codec,
            config.resolution,
            config.fps,
            config.bitrate_kbps,
            parallelism,
        ) {
            Ok(chain) => chain,
            Err(e) => {
                return Err(e);
            },
        };
        let mix: Chain = self.build_mix_pipeline(&config.audio);
        let microphone: Option<Chain> = self.build_audio_source_pipeline(
            &config.audio.microphone,
            DefaultDeviceType::Microphone,
            config.audio.sample_rate_hz,
        );
        let background: Option<Chain> = self.build_audio_source_pipeline(
            &config.audio.background,
            DefaultDeviceType::Background,
            config.audio.sample_rate_hz,
        );
        Ok(CapturePlan { video, mix, microphone, background })
    }

    /// The capture pipeline could not be set to run at all: the daemon has failed. What the
    /// pipeline reported tells why.
    pub fn start_refused(&mut self, error: &str, messages: &Vec<BusMessage>) -> (r: WayclipError)
        ensures
            final(self).same_but_status(old(self)),
            final(self).status is Failed,
            r matches WayclipError::Validation(m) && m@
                == "set_state(Playing) failed synchronously ("@ + error@ + "): "@
                + crate::remux::failure_reason(messages@),
    {
        self.status = DaemonStatus::Failed;
        let head: String = cat("set_state(Playing) failed synchronously (", error);
        let middle: String = cat(head.as_str(), "): ");
        WayclipError::Validation(cat(middle.as_str(), first_failure(messages).as_str()))
    }

    /// Whether `self` is `before` after its pipeline was judged, which runs or does not.
    pub open spec fn start_is_judged(
        &self,
        before: &DaemonCore,
        running: bool,
        state_result: Seq<char>,
        messages: Seq<BusMessage>,
        r: Result<(), WayclipError>,
    ) -> bool {
        &&& running ==> r is Ok && *self == *before
        &&& !running ==> self.same_but_status(before) && self.status is Failed && (
        r matches Err(WayclipError::Validation(m)) && m@
            == "Capture pipeline failed to reach PLAYING state ("@ + state_result + "): "@
            + crate::remux::failure_reason(messages))
    }

    /// Judges whether the capture pipeline runs once it had time to start. If it does not,
    /// the daemon has failed, and what the pipeline reported tells why.
    pub fn start_judged(
        &mut self,
        state_ok: bool,
        playing: bool,
        state_result: &str,
        messages: &Vec<BusMessage>,
    ) -> (r: Result<(), WayclipError>)
        ensures
            final(self).start_is_judged(
                old(self),
                state_ok && playing,
                state_result@,
                messages@,
                r,
            ),
    {
        if state_ok && playing {
            return Ok(());
        }
        self.status = DaemonStatus::Failed;
        let head: String = cat(
            "Capture pipeline failed to reach PLAYING state (",
            state_result,
        );
        let middle: String = cat(head.as_str(), "): ");
        Err(WayclipError::Validation(cat(middle.as_str(), first_failure(messages).as_str())))
    }

    /// Whether `self` is `before` after it was told what a sink of the capture pipeline has.
    pub open spec fn has_received(
        &self,
        before: &DaemonCore,
        content_type: ContentType,
        sample: Option<Sample>,
        now: Moment,
        now_ms: u64,
        r: Result<(), FlowError>,
    ) -> bool {
        match sample {
            None => r == Err::<(), FlowError>(FlowError::Eos) && *self == *before,
            Some(s) => match s.pts {
                None => r == Err::<(), FlowError>(FlowError::Error) && *self == *before,
                Some(pts) => {
                    &&& r is Ok
                    &&& self.ring_buffer.has_taken(
                        &before.ring_buffer,
                        content_type,
                        s,
                        pts,
                        now,
                    )
                    &&& *self == (DaemonCore {
                        ring_buffer: self.ring_buffer,
                        last_video_frame_time: if content_type is Video {
                            now_ms
                        } else {
                            before.last_video_frame_time
                        },
                        last_audio_frame_time: if content_type is Audio {
                            now_ms
                        } else {
                            before.last_audio_frame_time
                        },
                        ..*before
                    })
                },
            },
        }
    }

    /// Takes in what a sink of the capture pipeline has: a sample, or that none comes any
    /// more. It came at the moment `now`, and `now_ms` milliseconds after 1970 began.
    pub fn set_appsink_callbacks(
        &mut self,
        content_type: ContentType,
        sample: Option<Sample>,
        now: Moment,
        now_ms: u64,
    ) -> (r: Result<(), FlowError>)
        requires
            sample matches Some(s) && s.pts matches Some(pts) ==> old(self).ring_buffer.placeable(
                content_type,
                pts,
            ),
        ensures
            final(self).has_received(old(self), content_type, sample, now, now_ms, r),
    {
        match sample {
            None => Err(FlowError::Eos),
            Some(s) => {
                if s.pts.is_some() {
                    match content_type {
                        ContentType::Video => {
                            self.last_video_frame_time = now_ms;
                        },
                        ContentType::Audio => {
                            self.last_audio_frame_time = now_ms;
                        },
                    }
                    self.ring_buffer.take_sample(content_type, s, now)
                } else {
                    Err(FlowError::Error)
                }
            },
        }
    }

    /// Whether `self` is `before` after it began to stop.
    pub open spec fn stop_begun(&self, before: &DaemonCore) -> bool {
        *self == (DaemonCore {
            status: DaemonStatus::Deactivating,
            has_pipeline: false,
            has_proxy: false,
            has_session: false,
            pipewire_file_descriptor: None,
            pipewire_node_id: None,
            ..*before
        })
    }

    /// Begins to stop: the pipeline and the shared screen go, and the user hears of it as
    /// told.
    pub fn shutdown(&mut self) -> (r: Reaction)
        ensures
            final(self).stop_begun(old(self)),
            r == NotificationManager::reaction(
                NotificationEvent::DaemonStop,
                old(self).notification_settings,
            ),
    {
        self.status = DaemonStatus::Deactivating;
        self.has_pipeline = false;
        self.pipewire_file_descriptor = None;
        self.has_proxy = false;
        self.pipewire_node_id = None;
        self.has_session = false;
        NotificationManager::process_event(
            NotificationEvent::DaemonStop,
            self.notification_settings,
        )
    }

    /// The daemon has stopped.
    pub fn stopped(&mut self)
        ensures
            final(self).same_but_status(old(self)),
            final(self).status is Inactive,
    {
        self.status = DaemonStatus::Inactive;
    }

    /// What the daemon does.
    pub fn get_status(&self) -> (r: DaemonStatus)
        ensures
            r == self.status,
    {
        self.status
    }

    /// The game that counts, if there is one, and how sure the present one is, in
    /// hundredths.
    pub fn rescan_games(&self) -> (r: (Option<ClipsGames>, u32))
        ensures
            r.0 == self.discovery@.confident(),
            r.1 == self.discovery@.confidence,
    {
        (self.discovery.confident_game(), self.discovery.confidence)
    }

    /// Has Discord show a recording of this game, or of the desktop, if it is to show
    /// something.
    pub fn announce_game(&mut self, game_name: Option<String>)
        ensures
            final(self).discord is Some == old(self).discord is Some,
            old(self).discord matches Some(d) ==> final(self).discord.unwrap().waiting@
                == d.waiting@.push(
                crate::discord::PresenceCommand::Recording { game: game_name },
            ),
            *final(self) == (DaemonCore { discord: final(self).discord, ..*old(self) }),
    {
        let mut discord: Option<DiscordPresenceManager> = None;
        std::mem::swap(&mut discord, &mut self.discord);
        if let Some(mut d) = discord {
            d.set_recording(game_name);
            self.discord = Some(d);
        }
    }

    /// Whether `self` is `before` after it began to replace its pipeline by one of this
    /// generation.
    pub open spec fn recovery_begun(&self, before: &DaemonCore, next_gen: u64) -> bool {
        &&& self.ring_buffer.resync_begun(&before.ring_buffer)
        &&& *self == (DaemonCore {
            generation: next_gen,
            last_video_frame_time: 0,
            ring_buffer: self.ring_buffer,
            ..*before
        })
    }

    /// Begins to replace a pipeline that failed: a new generation, which is returned, and
    /// a ring buffer that waits for its first frames.
    pub fn recover_pipeline(&mut self) -> (next_gen: u64)
        requires
            old(self).generation < u64::MAX,
        ensures
            next_gen == old(self).generation + 1,
            final(self).recovery_begun(old(self), next_gen),
    {
        self.generation = self.generation + 1;
        self.last_video_frame_time = 0;
        self.ring_buffer.begin_resync();
        self.generation
    }

    /// Whether an old pipeline is asked to stop once more, after this many times.
    pub fn asks_again(attempts: u32, stopped: bool) -> (r: bool)
        ensures
            r == (!stopped && attempts < TEARDOWN_ATTEMPTS),
            r <==> !stopped && attempts < 5,
    {
        !stopped && attempts < TEARDOWN_ATTEMPTS
    }

    /// Gives the shared screen up and takes a new name.
    pub fn drop_screen(&mut self)
        ensures
            final(self).id@.len() == crate::chance::ID_LENGTH,
            final(self).id@.len() == 21,
            forall|i: int|
                0 <= i < final(self).id@.len() ==> crate::chance::is_id_char(
                    #[trigger] final(self).id@[i],
                ),
            *final(self) == (DaemonCore {
                id: final(self).id,
                has_proxy: false,
                has_session: false,
                pipewire_file_descriptor: None,
                pipewire_node_id: None,
                ..*old(self)
            }),
    {
        self.has_session = false;
        self.has_proxy = false;
        self.pipewire_node_id = None;
        self.pipewire_file_descriptor = None;
        self.id = fresh_id();
    }

    /// The node of the first stream that the screen sharing service offers.
    pub fn first_stream(nodes: &Vec<u32>) -> (r: Result<String, WayclipError>)
        ensures
            nodes@.len() > 0 ==> (r matches Ok(id) && id@ == crate::text::decimal(
                nodes@[0] as nat,
            )),
            nodes@.len() == 0 ==> (r matches Err(WayclipError::Screencast(m)) && m@
                == "Could not extract first stream in response"@),
    {
        if nodes.len() == 0 {
            return Err(
                WayclipError::Screencast("Could not extract first stream in response".to_owned()),
            );
        }
        Ok(decimal_text(nodes[0] as u64))
    }
}

/// Whether a device has its part of the capture pipeline exactly when it is recorded and
/// there.
pub open spec fn device_planned(
    chain: Option<Chain>,
    manager: PipewireManager,
    node: crate::settings::AudioNode,
    device_type: DefaultDeviceType,
    sample_rate_hz: u64,
) -> bool {
    match (chain, crate::pipewire::id_of(manager.state.devices@, node.node_name@)) {
        (Some(c), Some(id)) => node.enabled && c@ == crate::audio::audio_source_chain(
            id,
            node.node_name@,
            device_type,
            sample_rate_hz,
        ),
        (Some(_), None) => false,
        (None, found) => !node.enabled || found is None,
    }
}

/// A device has its part of the capture pipeline exactly where it is recorded and the audio
/// server knows it, and the part receives the first device of its name.
pub proof fn law_recorded_devices_are_planned(
    chain: Option<Chain>,
    manager: PipewireManager,
    node: crate::settings::AudioNode,
    device_type: DefaultDeviceType,
    sample_rate_hz: u64,
)
    requires
        device_planned(chain, manager, node, device_type, sample_rate_hz),
    ensures
        chain is Some <==> node.enabled && crate::pipewire::has_name(
            manager.state.devices@,
            node.node_name@,
        ),
        chain matches Some(c) ==> c@ == crate::audio::audio_source_chain(
            crate::pipewire::id_of(manager.state.devices@, node.node_name@).unwrap(),
            node.node_name@,
            device_type,
            sample_rate_hz,
        ),
{
    crate::pipewire::law_names_and_ids_agree(manager.state.devices@, node.node_name@);
}

/// A sample with a time is taken, and is noted as the sign of life of its own stream alone; one
/// without a time is an error and the end of the stream is told as such, and both change nothing.
pub proof fn law_samples_are_signs_of_life(
    before: DaemonCore,
    after: DaemonCore,
    content_type: ContentType,
    sample: Option<Sample>,
    now: Moment,
    now_ms: u64,
    r: Result<(), FlowError>,
)
    requires
        after.has_received(&before, content_type, sample, now, now_ms, r),
    ensures
        sample is None ==> r == Err::<(), FlowError>(FlowError::Eos),
        sample is Some && sample.unwrap().pts is None ==> r == Err::<(), FlowError>(
            FlowError::Error,
        ),
        r is Ok <==> sample is Some && sample.unwrap().pts is Some,
        r is Err ==> after == before,
        r is Ok && content_type is Video ==> after.last_video_frame_time == now_ms
            && after.last_audio_frame_time == before.last_audio_frame_time,
        r is Ok && content_type is Audio ==> after.last_audio_frame_time == now_ms
            && after.last_video_frame_time == before.last_video_frame_time,
        r is Ok ==> after.ring_buffer.has_taken(
            &before.ring_buffer,
            content_type,
            sample.unwrap(),
            sample.unwrap().pts.unwrap(),
            now,
        ),
        after.status == before.status && after.generation == before.generation,
        after.discovery == before.discovery && after.output_config == before.output_config,
{
}

/// Where the screen is shared, the plan receives it through the descriptor and from the node that
/// were given, and these are remembered with the token; where it is not, the error is handed on
/// and the daemon has failed. The recorded past is not touched.
pub proof fn law_plan_receives_the_shared_screen(
    before: DaemonCore,
    after: DaemonCore,
    screencast: Result<ScreencastNegotiation, WayclipError>,
    config: RecordingConfig,
    parallelism: Option<usize>,
    r: Result<CapturePlan, WayclipError>,
)
    requires
        after.has_planned(&before, screencast, config, parallelism, r),
    ensures
        screencast matches Err(e) ==> r == Err::<CapturePlan, WayclipError>(e)
            && after.status is Failed && after.has_session == before.has_session,
        screencast matches Ok(shared) ==> {
            &&& r is Ok
            &&& r.unwrap().video@[0].properties.contains(
                ("fd"@, crate::pipeline::PropView::Int(shared.pipewire_file_descriptor)),
            )
            &&& r.unwrap().video@[0].properties.contains(
                ("path"@, crate::pipeline::PropView::Text(shared.pipewire_node_id@)),
            )
            &&& after.pipewire_file_descriptor == Some(shared.pipewire_file_descriptor)
            &&& after.pipewire_node_id == Some(shared.pipewire_node_id)
            &&& after.restore_token == shared.restore_token
            &&& after.has_session && after.has_proxy
            &&& after.status == before.status
            &&& r.unwrap().microphone is Some <==> config.audio.microphone.enabled
                && crate::pipewire::has_name(
                before.pipewire_manager.state.devices@,
                config.audio.microphone.node_name@,
            )
            &&& r.unwrap().background is Some <==> config.audio.background.enabled
                && crate::pipewire::has_name(
                before.pipewire_manager.state.devices@,
                config.audio.background.node_name@,
            )
        },
        after.ring_buffer == before.ring_buffer && after.generation == before.generation,
{
    if let Ok(shared) = screencast {
        let plan = r.unwrap();
        crate::video::law_screen_is_received_and_watched(
            shared.pipewire_file_descriptor,
            shared.pipewire_node_id@,
            config.codec,
            config.resolution,
            config.fps,
            config.bitrate_kbps,
            parallelism,
        );
        law_recorded_devices_are_planned(
            plan.microphone,
            before.pipewire_manager,
            config.audio.microphone,
            DefaultDeviceType::Microphone,
            config.audio.sample_rate_hz,
        );
        law_recorded_devices_are_planned(
            plan.background,
            before.pipewire_manager,
            config.audio.background,
            DefaultDeviceType::Background,
            config.audio.sample_rate_hz,
        );
    }
}

/// A pipeline that is replaced leaves the recorded past as it is; until the new one shows its
/// first video frame none counts as seen, and the new frames follow the old ones.
pub proof fn law_recovery_keeps_the_past(before: DaemonCore, after: DaemonCore, next_gen: u64)
    requires
        after.recovery_begun(&before, next_gen),
    ensures
        after.generation == next_gen,
        after.last_video_frame_time == 0,
        after.last_audio_frame_time == before.last_audio_frame_time,
        after.ring_buffer.video_frames@ == before.ring_buffer.video_frames@,
        after.ring_buffer.audio_frames@ == before.ring_buffer.audio_frames@,
        after.ring_buffer.awaiting_video_resync && after.ring_buffer.awaiting_audio_resync,
        after.status == before.status && after.discovery == before.discovery,
        after.id == before.id && after.restore_token == before.restore_token,
        after.has_session == before.has_session && after.pipewire_node_id
            == before.pipewire_node_id,
{
    crate::ring::law_restart_keeps_the_past(before.ring_buffer, after.ring_buffer);
}

/// A daemon that stops gives up its pipeline and the shared screen, but keeps what brings the
/// screen back, what it recorded and its settings.
pub proof fn law_stop_gives_up_the_screen(before: DaemonCore, after: DaemonCore)
    requires
        after.stop_begun(&before),
    ensures
        after.status is Deactivating,
        !after.has_pipeline && !after.has_proxy && !after.has_session,
        after.pipewire_file_descriptor is None && after.pipewire_node_id is None,
        after.restore_token == before.restore_token,
        after.ring_buffer == before.ring_buffer,
        after.id == before.id && after.generation == before.generation,
        after.recording_config == before.recording_config && after.output_config
            == before.output_config,
{
}

/// A pipeline that runs changes nothing; one that does not makes the daemon a failed one, and
/// the error tells the state and ends with the first failure that was reported.
pub proof fn law_start_is_judged_by_running(
    before: DaemonCore,
    after: DaemonCore,
    running: bool,
    state_result: Seq<char>,
    messages: Seq<BusMessage>,
    r: Result<(), WayclipError>,
)
    requires
        after.start_is_judged(&before, running, state_result, messages, r),
    ensures
        r is Ok <==> running,
        running ==> after == before,
        !running ==> after.status is Failed && after.ring_buffer == before.ring_buffer && (
        r matches Err(WayclipError::Validation(m)) && crate::text::has_text(m@, state_result)
            && crate::text::finishes_with(m@, crate::remux::failure_reason(messages))),
{
    let head = "Capture pipeline failed to reach PLAYING state ("@;
    let why = crate::remux::failure_reason(messages);
    let whole = head + state_result + "): "@ + why;
    assert(whole =~= head + state_result + ("): "@ + why));
    crate::text::law_text_is_found_where_it_stands(head, state_result, "): "@ + why);
    crate::text::law_text_is_found_where_it_stands(head + state_result + "): "@, why, why);
}

} // verus!
