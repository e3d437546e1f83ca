//! Application configuration and its default values.
use vstd::prelude::*;
use crate::detection::{default_allowlist, default_allowlist_spec, strings_view, DetectionMode};
use crate::std_types::{path_from_str, path_join, path_joined, path_of};

verus! {

/// Top-level application configuration.
#[derive(Debug, Clone)]
pub struct Config {
    pub capture: CaptureSettings,
    pub detection: DetectionSettings,
    pub inference: InferenceSettings,
    pub storage: StorageSettings,
    pub consent: ConsentSettings,
    pub ui: UiSettings,
}

impl Default for Config {
    /// Every section at its default.
    fn default() -> (r: Config)
        ensures
            default_capture(&r.capture),
            default_detection(&r.detection),
            default_inference(&r.inference),
            default_storage(&r.storage),
            default_consent(&r.consent),
            default_ui(&r.ui),
    {
        Config {
            capture: CaptureSettings::default(),
            detection: DetectionSettings::default(),
            inference: InferenceSettings::default(),
            storage: StorageSettings::default(),
            consent: ConsentSettings::default(),
            ui: UiSettings::default(),
        }
    }
}

/// Audio capture settings.
#[derive(Debug, Clone)]
pub struct CaptureSettings {
    pub mic_enabled: bool,
    pub system_audio_enabled: bool,
    pub sample_rate: u32,
    pub channels: u16,
    /// "separate" | "mixed" | "both"
    pub channel_mode: String,
}

/// The default capture settings: microphone only, 16 kHz mono, separate
/// files.
pub open spec fn default_capture(c: &CaptureSettings) -> bool {
    &&& c.mic_enabled
    &&& !c.system_audio_enabled
    &&& c.sample_rate == 16000
    &&& c.channels == 1
    &&& c.channel_mode@ == "separate"@
}

impl Default for CaptureSettings {
    fn default() -> (r: CaptureSettings)
        ensures
            default_capture(&r),
    {
        CaptureSettings {
            mic_enabled: true,
            system_audio_enabled: false,
            sample_rate: 16000,
            channels: 1,
            channel_mode: String::from_str("separate"),
        }
    }
}

/// Meeting detection settings.
#[derive(Debug, Clone)]
pub struct DetectionSettings {
    pub mode: DetectionMode,
    pub allowlist: Vec<String>,
    pub poll_interval_ms: u64,
    pub candidate_poll_interval_ms: u64,
}

/// The default detection settings: armed mode, the default allowlist,
/// polling every second and every half second while a candidate is pending.
pub open spec fn default_detection(d: &DetectionSettings) -> bool {
    &&& d.mode == DetectionMode::Armed
    &&& strings_view(d.allowlist@) == default_allowlist_spec()
    &&& d.poll_interval_ms == 1000
    &&& d.candidate_poll_interval_ms == 500
}

impl Default for DetectionSettings {
    fn default() -> (r: DetectionSettings)
        ensures
            default_detection(&r),
    {
        DetectionSettings {
            mode: DetectionMode::Armed,
            allowlist: default_allowlist(),
            poll_interval_ms: 1000,
            candidate_poll_interval_ms: 500,
        }
    }
}

/// Inference endpoint settings.
#[derive(Debug, Clone)]
pub struct InferenceSettings {
    pub endpoint_url: String,
    pub model: String,
    pub api_key_stored: bool,
    pub chunk_duration_secs: u64,
    pub overlap_secs: u64,
}

/// The default inference settings.
pub open spec fn default_inference(i: &InferenceSettings) -> bool {
    &&& i.endpoint_url@ == "https://openrouter.ai/api/v1"@
    &&& i.model@ == "openai/gpt-4o-mini-transcribe"@
    &&& !i.api_key_stored
    &&& i.chunk_duration_secs == 55
    &&& i.overlap_secs == 1
}

impl Default for InferenceSettings {
    fn default() -> (r: InferenceSettings)
        ensures
            default_inference(&r),
    {
        InferenceSettings {
            endpoint_url: String::from_str("https://openrouter.ai/api/v1"),
            model: String::from_str("openai/gpt-4o-mini-transcribe"),
            api_key_stored: false,
            chunk_duration_secs: 55,
            overlap_secs: 1,
        }
    }
}

/// Storage and retention settings.
#[derive(Debug, Clone)]
pub struct StorageSettings {
    pub output_dir: std::path::PathBuf,
    pub retention_policy: RetentionPolicy,
    pub retention_days: u32,
}

/// Retention policy options.
#[derive(Debug, Clone, Copy, PartialEq, Eq, Structural)]
pub enum RetentionPolicy {
    Keep,
    DeleteAfterTranscription,
    DeleteAfterDays(u32),
}

#[verifier::external_type_specification]
#[verifier::external_body]
pub struct ExProjectDirs(directories::ProjectDirs);

/// What `ProjectDirs::data_dir` returns for a set of project directories:
/// the project's data directory.
pub uninterp spec fn project_data_dir_of(dirs: directories::ProjectDirs) -> std::path::PathBuf;

/// What `ProjectDirs::project_path` returns for a set of project
/// directories: the path fragment they were derived from.
pub uninterp spec fn project_path_of(dirs: directories::ProjectDirs) -> std::path::PathBuf;

/// The project path fragment that `ProjectDirs::from` derives from a
/// qualifier, an organisation and an application name (on each platform a
/// fixed function of the three).
pub uninterp spec fn project_path_for(qualifier: Seq<char>, organization: Seq<char>, application: Seq<char>) -> std::path::PathBuf;

/// `directories::ProjectDirs::from`: the project's directories for the
/// given qualifier, organisation and application, or `None` when no home
/// directory can be found. Whether they are found and where the base
/// directories lie depend on the environment and are not stated; directories
/// that are found belong to the project path derived from the three names.
#[verifier::external_body]
fn project_dirs_from(qualifier: &str, organization: &str, application: &str) -> (r: Option<directories::ProjectDirs>)
    ensures
        r matches Some(d) ==> project_path_of(d) == project_path_for(qualifier@, organization@, application@),
{
    directories::ProjectDirs::from(qualifier, organization, application)
}

/// `directories::ProjectDirs::data_dir`, copied into a `PathBuf`: the
/// project's data directory, named `project_data_dir_of`.
#[verifier::external_body]
fn project_data_dir(dirs: &directories::ProjectDirs) -> (r: std::path::PathBuf)
    ensures
        r == project_data_dir_of(*dirs),
{
    dirs.data_dir().to_path_buf()
}

/// The directory sessions are stored under for a data directory.
pub open spec fn sessions_dir(data_dir: std::path::PathBuf) -> std::path::PathBuf {
    path_joined(data_dir, "sessions"@)
}

/// The data directory: the project's own when the platform has one, else
/// "./steno-output".
pub open spec fn data_dir_spec(dirs: Option<directories::ProjectDirs>) -> std::path::PathBuf {
    match dirs {
        Some(d) => project_data_dir_of(d),
        None => path_of("./steno-output"@),
    }
}

/// The default storage settings for a data directory: sessions under its
/// "sessions" subdirectory, kept, with a 30-day retention period.
pub open spec fn default_storage_in(s: &StorageSettings, data_dir: std::path::PathBuf) -> bool {
    &&& s.output_dir == sessions_dir(data_dir)
    &&& s.retention_policy == RetentionPolicy::Keep
    &&& s.retention_days == 30
}

/// The default storage settings, for the data directory of this
/// application's project directories (or the fallback when none are found).
pub open spec fn default_storage(s: &StorageSettings) -> bool {
    exists|dirs: Option<directories::ProjectDirs>| own_project_dirs(dirs) && default_storage_in(s, #[trigger] data_dir_spec(dirs))
}

/// Directories looked up for this application ("com", "nerd-aero",
/// "steno-core"), if any were found.
pub open spec fn own_project_dirs(dirs: Option<directories::ProjectDirs>) -> bool {
    dirs matches Some(d) ==> project_path_of(d) == project_path_for("com"@, "nerd-aero"@, "steno-core"@)
}

/// The data directory is the project's own whenever project directories are
/// found, and "./steno-output" only when none are; the default storage for a
/// found set of directories keeps sessions in "sessions" under their data
/// directory.
pub proof fn lemma_data_dir_choice(dirs: Option<directories::ProjectDirs>, s: StorageSettings)
    ensures
        dirs matches Some(d) ==> data_dir_spec(dirs) == project_data_dir_of(d),
        dirs is None ==> data_dir_spec(dirs) == path_of("./steno-output"@),
        dirs matches Some(d) ==> (default_storage_in(&s, data_dir_spec(dirs))
            ==> s.output_dir == path_joined(project_data_dir_of(d), "sessions"@)),
{
}

impl StorageSettings {
    /// The data directory for the project directories found (if any).
    pub fn data_dir(dirs: Option<directories::ProjectDirs>) -> (r: std::path::PathBuf)
        ensures
            r == data_dir_spec(dirs),
            dirs matches Some(d) ==> r == project_data_dir_of(d),
            dirs is None ==> r == path_of("./steno-output"@),
    {
        match dirs {
            Some(d) => project_data_dir(&d),
            None => path_from_str("./steno-output"),
        }
    }

    /// The default storage settings within a data directory.
    pub fn in_data_dir(data_dir: &std::path::PathBuf) -> (r: StorageSettings)
        ensures
            default_storage_in(&r, *data_dir),
            r.output_dir == path_joined(*data_dir, "sessions"@),
    {
        StorageSettings {
            output_dir: path_join(data_dir, "sessions"),
            retention_policy: RetentionPolicy::Keep,
            retention_days: 30,
        }
    }
}

impl Default for StorageSettings {
    /// Sessions under the project's data directory (or "./steno-output"),
    /// kept, with a 30-day retention period.
    fn default() -> (r: StorageSettings)
        ensures
            default_storage(&r),
    {
        let dirs = project_dirs_from("com", "nerd-aero", "steno-core");
        let ghost found = dirs;
        let data_dir = StorageSettings::data_dir(dirs);
        let r = StorageSettings::in_data_dir(&data_dir);
        assert(own_project_dirs(found) && default_storage_in(&r, data_dir_spec(found)));
        r
    }
}

/// Consent settings.
#[derive(Debug, Clone)]
pub struct ConsentSettings {
    pub require_ack: bool,
    pub banner_text: String,
    pub play_chime: bool,
}

/// The default consent settings: acknowledgement required, the standard
/// banner, a chime.
pub open spec fn default_consent(c: &ConsentSettings) -> bool {
    &&& c.require_ack
    &&& c.banner_text@ == "This meeting may be recorded for transcription purposes."@
    &&& c.play_chime
}

impl Default for ConsentSettings {
    fn default() -> (r: ConsentSettings)
        ensures
            default_consent(&r),
    {
        ConsentSettings {
            require_ack: true,
            banner_text: String::from_str("This meeting may be recorded for transcription purposes."),
            play_chime: true,
        }
    }
}

/// UI settings.
#[derive(Debug, Clone)]
pub struct UiSettings {
    pub notifications_enabled: bool,
    pub minimize_to_tray: bool,
    pub start_minimized: bool,
}

/// The default UI settings: notifications on, minimising to the tray,
/// starting minimised.
pub open spec fn default_ui(u: &UiSettings) -> bool {
    u.notifications_enabled && u.minimize_to_tray && u.start_minimized
}

impl Default for UiSettings {
    fn default() -> (r: UiSettings)
        ensures
            default_ui(&r),
    {
        UiSettings { notifications_enabled: true, minimize_to_tray: true, start_minimized: true }
    }
}

} // verus!
