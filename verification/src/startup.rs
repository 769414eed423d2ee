//! Starting the application when the user logs in: what is registered with
//! each operating system, and how a registration is judged.

use crate::json::{json_data, json_from_bool, json_from_members, json_from_text, JsonData};
use crate::text::{contains_text, joined, occurs_in, same_text};
use vstd::prelude::*;

verus! {

/// An operating system whose way of starting programs at login is known.
#[derive(Clone, Copy, Debug, PartialEq, Eq, Structural)]
pub enum Platform {
    Windows,
    MacOs,
    Linux,
}

/// The name under which the application is registered.
pub const APP_NAME: &'static str = "Pomodoro";

/// The registry key that holds the programs started at login on Windows.
pub const RUN_KEY: &'static str = "HKCU\\Software\\Microsoft\\Windows\\CurrentVersion\\Run";

/// The launch agent of the application on macOS, below the home directory.
pub const LAUNCH_AGENT_FILE: &'static str = "Library/LaunchAgents/com.pomodoro.app.plist";

/// The autostart entry of the application on Linux, below the home
/// directory.
pub const DESKTOP_ENTRY_FILE: &'static str = ".config/autostart/pomodoro.desktop";

impl Platform {
    /// The platform that the operating system named `os` is, if it is one
    /// of the three.
    pub open spec fn named(os: Seq<char>) -> Option<Platform> {
        if os == "windows"@ {
            Some(Platform::Windows)
        } else if os == "macos"@ {
            Some(Platform::MacOs)
        } else if os == "linux"@ {
            Some(Platform::Linux)
        } else {
            None
        }
    }

    /// The way in which the platform starts programs at login.
    pub open spec fn method_text(self) -> Seq<char> {
        match self {
            Platform::Windows => "Windows Registry"@,
            Platform::MacOs => "macOS Launch Agents"@,
            Platform::Linux => "XDG Autostart"@,
        }
    }

    /// The platform that the operating system named `os` is.
    pub fn from_os(os: &str) -> (platform: Option<Platform>)
        ensures
            platform == Platform::named(os@),
    {
        if same_text(os, "windows") {
            Some(Platform::Windows)
        } else if same_text(os, "macos") {
            Some(Platform::MacOs)
        } else if same_text(os, "linux") {
            Some(Platform::Linux)
        } else {
            None
        }
    }

    /// The way in which the platform starts programs at login.
    pub fn method(&self) -> (method: &'static str)
        ensures
            method@ == self.method_text(),
    {
        match self {
            Platform::Windows => "Windows Registry",
            Platform::MacOs => "macOS Launch Agents",
            Platform::Linux => "XDG Autostart",
        }
    }
}

/// Why the start at login could not be managed.
#[derive(Debug)]
pub enum StartupError {
    /// The operating system is none of the three.
    UnsupportedSystem,
    /// The routine of another platform than the one at hand was asked for.
    NotAvailable(Platform),
    /// A command of the operating system failed; `stderr` is what it wrote.
    CommandFailed { doing: StartupStep, stderr: String },
    /// The operating system is none of the three, and a delay was asked for.
    DelayUnsupported,
}

/// A command of the operating system that can fail.
#[derive(Clone, Copy, Debug, PartialEq, Eq, Structural)]
pub enum StartupStep {
    /// Adding the registry value.
    EnableStartup,
    /// Deleting the registry value.
    DisableStartup,
    /// Loading the launch agent.
    LoadLaunchAgent,
}

impl StartupStep {
    /// What the description of a failure of the command starts with.
    pub open spec fn failure_prefix(self) -> Seq<char> {
        match self {
            StartupStep::EnableStartup => "Failed to enable startup: "@,
            StartupStep::DisableStartup => "Failed to disable startup: "@,
            StartupStep::LoadLaunchAgent => "Failed to load launch agent: "@,
        }
    }
}

impl StartupError {
    /// The description of the error.
    pub open spec fn message_text(self) -> Seq<char> {
        match self {
            StartupError::UnsupportedSystem => "Unsupported operating system"@,
            StartupError::NotAvailable(Platform::Windows) => "Windows startup management not available on this platform"@,
            StartupError::NotAvailable(Platform::MacOs) => "macOS startup management not available on this platform"@,
            StartupError::NotAvailable(Platform::Linux) => "Linux startup management not available on this platform"@,
            StartupError::CommandFailed { doing, stderr } => doing.failure_prefix() + stderr@,
            StartupError::DelayUnsupported => "Startup delay not supported on this platform"@,
        }
    }

    /// The description of the error.
    pub fn message(&self) -> (message: String)
        ensures
            message@ == self.message_text(),
    {
        match self {
            StartupError::UnsupportedSystem => "Unsupported operating system".to_owned(),
            StartupError::NotAvailable(Platform::Windows) => "Windows startup management not available on this platform".to_owned(),
            StartupError::NotAvailable(Platform::MacOs) => "macOS startup management not available on this platform".to_owned(),
            StartupError::NotAvailable(Platform::Linux) => "Linux startup management not available on this platform".to_owned(),
            StartupError::CommandFailed { doing, stderr } => match doing {
                StartupStep::EnableStartup => joined("Failed to enable startup: ", stderr.as_str()),
                StartupStep::DisableStartup => joined(
                    "Failed to disable startup: ",
                    stderr.as_str(),
                ),
                StartupStep::LoadLaunchAgent => joined(
                    "Failed to load launch agent: ",
                    stderr.as_str(),
                ),
            },
            StartupError::DelayUnsupported => "Startup delay not supported on this platform".to_owned(),
        }
    }
}

/// The command line that starts the application `exe` at login.
pub open spec fn startup_command_text(exe: Seq<char>) -> Seq<char> {
    exe + " --minimized"@
}

/// The value that the registry holds for the application `exe`: its path in
/// quotes, then the flag.
pub open spec fn registry_value_text(exe: Seq<char>) -> Seq<char> {
    "\""@ + exe + "\" --minimized"@
}

/// The launch agent that starts the application `exe` at login.
pub open spec fn launch_agent_text(exe: Seq<char>) -> Seq<char> {
    "<?xml version=\"1.0\" encoding=\"UTF-8\"?>\n<!DOCTYPE plist PUBLIC \"-//Apple//DTD PLIST 1.0//EN\" \"http://www.apple.com/DTDs/PropertyList-1.0.dtd\">\n<plist version=\"1.0\">\n<dict>\n    <key>Label</key>\n    <string>com.pomodoro.app</string>\n    <key>ProgramArguments</key>\n    <array>\n        <string>"@
        + exe
        + "</string>\n        <string>--minimized</string>\n    </array>\n    <key>RunAtLoad</key>\n    <true/>\n    <key>KeepAlive</key>\n    <false/>\n    <key>LaunchOnlyOnce</key>\n    <true/>\n</dict>\n</plist>"@
}

/// The autostart entry that starts the application `exe` at login.
pub open spec fn desktop_entry_text(exe: Seq<char>) -> Seq<char> {
    "[Desktop Entry]\nType=Application\nName=Pomodoro\nComment=Pomodoro task and time management application\nIcon=pomodoro\nExec="@
        + exe
        + " --minimized\nTerminal=false\nX-GNOME-Autostart-enabled=true\nStartupNotify=false\nHidden=false"@
}

/// What is to be done to the operating system to register the
/// application, to take the registration back, or to look for it.
#[derive(Debug)]
pub enum StartupAction {
    /// Run `reg` with these arguments.
    Registry { arguments: Vec<String> },
    /// Write the launch agent below the home directory, creating its
    /// directory, and load it with `launchctl load`.
    InstallLaunchAgent { content: String },
    /// If the launch agent exists, unload it with `launchctl unload`,
    /// whatever comes of that, and remove the file.
    RemoveLaunchAgent,
    /// Write the autostart entry below the home directory, creating its
    /// directory, and make it executable.
    InstallDesktopEntry { content: String },
    /// If the autostart entry exists, remove the file.
    RemoveDesktopEntry,
    /// See whether the file below the home directory exists.
    LookForFile { file: &'static str },
}

/// Where the registration is kept.
#[derive(Clone, Copy, Debug, PartialEq, Eq)]
pub enum StartupLocation {
    /// Under this registry key.
    RegistryKey(&'static str),
    /// In this file below the home directory.
    BelowHome(&'static str),
    /// Nowhere that is known.
    Unknown,
}

/// What is known of the start at login.
#[derive(Debug, Clone)]
pub struct StartupInfo {
    pub enabled: bool,
    pub os: String,
    pub method: String,
    pub location: String,
}

/// Everything the information holds.
pub struct StartupInfoView {
    pub enabled: bool,
    pub os: Seq<char>,
    pub method: Seq<char>,
    pub location: Seq<char>,
}

impl View for StartupInfo {
    type V = StartupInfoView;

    open spec fn view(&self) -> StartupInfoView {
        StartupInfoView {
            enabled: self.enabled,
            os: self.os@,
            method: self.method@,
            location: self.location@,
        }
    }
}

/// The members of the information as a JSON object.
pub open spec fn startup_info_members(info: StartupInfoView) -> Map<Seq<char>, JsonData> {
    Map::<Seq<char>, JsonData>::empty().insert("enabled"@, JsonData::Bool(info.enabled)).insert(
        "os"@,
        JsonData::Text(info.os),
    ).insert("method"@, JsonData::Text(info.method)).insert(
        "location"@,
        JsonData::Text(info.location),
    )
}

impl StartupInfo {
    /// The information as a JSON object.
    pub fn to_json(&self) -> (value: serde_json::Value)
        ensures
            json_data(value) == JsonData::Object(startup_info_members(self@)),
    {
        let mut fields: Vec<(String, serde_json::Value)> = Vec::new();
        fields.push(("enabled".to_owned(), json_from_bool(self.enabled)));
        fields.push(("os".to_owned(), json_from_text(self.os.clone())));
        fields.push(("method".to_owned(), json_from_text(self.method.clone())));
        fields.push(("location".to_owned(), json_from_text(self.location.clone())));
        proof {
            reveal_strlit("enabled");
            reveal_strlit("os");
            reveal_strlit("method");
            reveal_strlit("location");
            assert(fields@[0].0@ == "enabled"@);
            assert(fields@[1].0@ == "os"@);
            assert(fields@[2].0@ == "method"@);
            assert(fields@[3].0@ == "location"@);
            assert(crate::json::names_distinct(fields@));
            crate::json::lemma_members_of_four(fields@);
        }
        json_from_members(fields)
    }
}

/// What is to be done to repair a registration.
#[derive(Clone, Copy, Debug, PartialEq, Eq, Structural)]
pub enum StartupRepair {
    /// Nothing.
    Keep,
    /// Take the registration back and make it anew.
    Reinstall,
}

/// Decides what is registered with the operating system.
#[derive(Clone, Copy, Debug)]
pub struct StartupManager;

impl StartupManager {
    pub fn new() -> (manager: Self)
        ensures
            manager == StartupManager,
    {
        StartupManager
    }

    /// The platform whose routine registers the application on the
    /// operating system named `os`.
    pub fn enable_startup(&self, os: &str) -> (routine: Result<Platform, StartupError>)
        ensures
            match Platform::named(os@) {
                Some(platform) => routine == Ok::<Platform, StartupError>(platform),
                None => routine == Err::<Platform, StartupError>(StartupError::UnsupportedSystem),
            },
    {
        match Platform::from_os(os) {
            Some(platform) => Ok(platform),
            None => Err(StartupError::UnsupportedSystem),
        }
    }

    /// The platform whose routine takes the registration back on the
    /// operating system named `os`.
    pub fn disable_startup(&self, os: &str) -> (routine: Result<Platform, StartupError>)
        ensures
            match Platform::named(os@) {
                Some(platform) => routine == Ok::<Platform, StartupError>(platform),
                None => routine == Err::<Platform, StartupError>(StartupError::UnsupportedSystem),
            },
    {
        match Platform::from_os(os) {
            Some(platform) => Ok(platform),
            None => Err(StartupError::UnsupportedSystem),
        }
    }

    /// The platform whose routine looks for the registration on the
    /// operating system named `os`.
    pub fn is_startup_enabled(&self, os: &str) -> (routine: Result<Platform, StartupError>)
        ensures
            match Platform::named(os@) {
                Some(platform) => routine == Ok::<Platform, StartupError>(platform),
                None => routine == Err::<Platform, StartupError>(StartupError::UnsupportedSystem),
            },
    {
        match Platform::from_os(os) {
            Some(platform) => Ok(platform),
            None => Err(StartupError::UnsupportedSystem),
        }
    }

    /// Whether the start at login can be managed on the operating system
    /// named `os`.
    pub fn can_manage_startup(&self, os: &str) -> (can: bool)
        ensures
            can == Platform::named(os@).is_some(),
    {
        Platform::from_os(os).is_some()
    }

    /// The command line that starts the application `exe` at login.
    pub fn get_startup_command(&self, exe: &str) -> (command: String)
        ensures
            command@ == startup_command_text(exe@),
    {
        joined(exe, " --minimized")
    }

    /// Whether a delay of the start can be set on the operating system
    /// named `os`: on the three platforms the delay is accepted and left to
    /// the application, elsewhere it is refused.
    pub fn set_startup_delay(&self, os: &str, delay_seconds: u32) -> (accepted: Result<
        (),
        StartupError,
    >)
        ensures
            accepted == if Platform::named(os@).is_some() {
                Ok::<(), StartupError>(())
            } else {
                Err::<(), StartupError>(StartupError::DelayUnsupported)
            },
    {
        match Platform::from_os(os) {
            Some(_) => Ok(()),
            None => Err(StartupError::DelayUnsupported),
        }
    }

    /// Where the registration is kept on the operating system named `os`.
    pub fn get_startup_location(&self, os: &str) -> (location: StartupLocation)
        ensures
            location == match Platform::named(os@) {
                Some(Platform::Windows) => StartupLocation::RegistryKey(RUN_KEY),
                Some(Platform::MacOs) => StartupLocation::BelowHome(LAUNCH_AGENT_FILE),
                Some(Platform::Linux) => StartupLocation::BelowHome(DESKTOP_ENTRY_FILE),
                None => StartupLocation::Unknown,
            },
    {
        match Platform::from_os(os) {
            Some(Platform::Windows) => StartupLocation::RegistryKey(RUN_KEY),
            Some(Platform::MacOs) => StartupLocation::BelowHome(LAUNCH_AGENT_FILE),
            Some(Platform::Linux) => StartupLocation::BelowHome(DESKTOP_ENTRY_FILE),
            None => StartupLocation::Unknown,
        }
    }

    /// What is known of the start at login on the operating system named
    /// `os`, where the registration was found or not (`enabled`) at
    /// `location`.
    pub fn get_startup_info(&self, os: &str, enabled: bool, location: String) -> (info: StartupInfo)
        ensures
            info.enabled == enabled,
            info.os@ == os@,
            info.location == location,
            info.method@ == match Platform::named(os@) {
                Some(platform) => platform.method_text(),
                None => "Unknown"@,
            },
    {
        let method = match Platform::from_os(os) {
            Some(platform) => platform.method().to_owned(),
            None => "Unknown".to_owned(),
        };
        StartupInfo { enabled, os: os.to_owned(), method, location }
    }

    /// Whether the registration still points at the application `exe`:
    /// it does where there is a registration, its text could be read, and
    /// `exe` stands in the text. `entry` is what `reg query` wrote or what
    /// the file holds, and absent where the query failed or there is no
    /// file.
    pub fn validate_startup_entry(&self, os: &str, enabled: bool, entry: Option<&str>, exe: &str) -> (valid:
        bool)
        ensures
            valid == (enabled && Platform::named(os@).is_some() && match entry {
                Some(text) => occurs_in(exe@, text@),
                None => false,
            }),
    {
        if !enabled {
            return false;
        }
        match Platform::from_os(os) {
            Some(_) => match entry {
                Some(text) => contains_text(text, exe),
                None => false,
            },
            None => false,
        }
    }

    /// What is to be done about a registration that was found or not
    /// (`enabled`) and that points at the application or not (`valid`): one
    /// that is there and points elsewhere is made anew.
    pub fn fix_startup_entry(&self, enabled: bool, valid: bool) -> (repair: StartupRepair)
        ensures
            repair == if enabled && !valid {
                StartupRepair::Reinstall
            } else {
                StartupRepair::Keep
            },
    {
        if enabled && !valid {
            StartupRepair::Reinstall
        } else {
            StartupRepair::Keep
        }
    }
}

/// Everything an action holds.
pub enum StartupActionView {
    Registry { arguments: Seq<Seq<char>> },
    InstallLaunchAgent { content: Seq<char> },
    RemoveLaunchAgent,
    InstallDesktopEntry { content: Seq<char> },
    RemoveDesktopEntry,
    LookForFile { file: Seq<char> },
}

impl View for StartupAction {
    type V = StartupActionView;

    open spec fn view(&self) -> StartupActionView {
        match *self {
            StartupAction::Registry { arguments } => StartupActionView::Registry {
                arguments: arguments.deep_view(),
            },
            StartupAction::InstallLaunchAgent { content } => StartupActionView::InstallLaunchAgent {
                content: content@,
            },
            StartupAction::RemoveLaunchAgent => StartupActionView::RemoveLaunchAgent,
            StartupAction::InstallDesktopEntry {
                content,
            } => StartupActionView::InstallDesktopEntry { content: content@ },
            StartupAction::RemoveDesktopEntry => StartupActionView::RemoveDesktopEntry,
            StartupAction::LookForFile { file } => StartupActionView::LookForFile { file: file@ },
        }
    }
}

/// The arguments with which `reg` registers the application `exe`.
pub open spec fn registry_add_arguments(exe: Seq<char>) -> Seq<Seq<char>> {
    seq![
        "add"@,
        RUN_KEY@,
        "/v"@,
        APP_NAME@,
        "/t"@,
        "REG_SZ"@,
        "/d"@,
        registry_value_text(exe),
        "/f"@,
    ]
}

/// The arguments with which `reg` takes the registration back.
pub open spec fn registry_delete_arguments() -> Seq<Seq<char>> {
    seq!["delete"@, RUN_KEY@, "/v"@, APP_NAME@, "/f"@]
}

/// The arguments with which `reg` looks for the registration.
pub open spec fn registry_query_arguments() -> Seq<Seq<char>> {
    seq!["query"@, RUN_KEY@, "/v"@, APP_NAME@]
}

/// What the routine `routine` of the platform `of` comes to on the platform
/// `host`: its action on its own platform, and elsewhere the error that it
/// is not available.
pub open spec fn routine_on(host: Platform, of: Platform, action: StartupActionView) -> Result<
    StartupActionView,
    StartupError,
> {
    if host == of {
        Ok(action)
    } else {
        Err(StartupError::NotAvailable(of))
    }
}

/// `outcome` is `wanted`, the action taken by its view.
pub open spec fn routine_is(
    outcome: Result<StartupAction, StartupError>,
    wanted: Result<StartupActionView, StartupError>,
) -> bool {
    match (outcome, wanted) {
        (Ok(action), Ok(view)) => action@ == view,
        (Err(error), Err(other)) => error == other,
        _ => false,
    }
}

/// Whether a command of the operating system that ended with or without
/// success, having written `stderr`, counts as done. Taking back a
/// registration that was not there counts as done.
pub open spec fn command_passes(doing: StartupStep, success: bool, stderr: Seq<char>) -> bool {
    success || (doing == StartupStep::DisableStartup && (occurs_in("cannot find"@, stderr)
        || occurs_in("not found"@, stderr)))
}

impl StartupManager {
    /// Registers the application `exe` on Windows.
    pub fn enable_startup_windows(&self, host: Platform, exe: &str) -> (routine: Result<
        StartupAction,
        StartupError,
    >)
        ensures
            routine_is(
                routine,
                routine_on(
                    host,
                    Platform::Windows,
                    StartupActionView::Registry { arguments: registry_add_arguments(exe@) },
                ),
            ),
    {
        match host {
            Platform::Windows => {
                let mut value = joined("\"", exe);
                value.append("\" --minimized");
                let mut arguments: Vec<String> = Vec::new();
                arguments.push("add".to_owned());
                arguments.push(RUN_KEY.to_owned());
                arguments.push("/v".to_owned());
                arguments.push(APP_NAME.to_owned());
                arguments.push("/t".to_owned());
                arguments.push("REG_SZ".to_owned());
                arguments.push("/d".to_owned());
                arguments.push(value);
                arguments.push("/f".to_owned());
                assert(arguments.deep_view() =~= registry_add_arguments(exe@));
                Ok(StartupAction::Registry { arguments })
            },
            _ => Err(StartupError::NotAvailable(Platform::Windows)),
        }
    }

    /// Takes the registration back on Windows.
    pub fn disable_startup_windows(&self, host: Platform) -> (routine: Result<
        StartupAction,
        StartupError,
    >)
        ensures
            routine_is(
                routine,
                routine_on(
                    host,
                    Platform::Windows,
                    StartupActionView::Registry { arguments: registry_delete_arguments() },
                ),
            ),
    {
        match host {
            Platform::Windows => {
                let mut arguments: Vec<String> = Vec::new();
                arguments.push("delete".to_owned());
                arguments.push(RUN_KEY.to_owned());
                arguments.push("/v".to_owned());
                arguments.push(APP_NAME.to_owned());
                arguments.push("/f".to_owned());
                assert(arguments.deep_view() =~= registry_delete_arguments());
                Ok(StartupAction::Registry { arguments })
            },
            _ => Err(StartupError::NotAvailable(Platform::Windows)),
        }
    }

    /// Looks for the registration on Windows: it is there where the query
    /// succeeds.
    pub fn is_startup_enabled_windows(&self, host: Platform) -> (routine: Result<
        StartupAction,
        StartupError,
    >)
        ensures
            routine_is(
                routine,
                routine_on(
                    host,
                    Platform::Windows,
                    StartupActionView::Registry { arguments: registry_query_arguments() },
                ),
            ),
    {
        match host {
            Platform::Windows => {
                let mut arguments: Vec<String> = Vec::new();
                arguments.push("query".to_owned());
                arguments.push(RUN_KEY.to_owned());
                arguments.push("/v".to_owned());
                arguments.push(APP_NAME.to_owned());
                assert(arguments.deep_view() =~= registry_query_arguments());
                Ok(StartupAction::Registry { arguments })
            },
            _ => Err(StartupError::NotAvailable(Platform::Windows)),
        }
    }

    /// Registers the application `exe` on macOS.
    pub fn enable_startup_macos(&self, host: Platform, exe: &str) -> (routine: Result<
        StartupAction,
        StartupError,
    >)
        ensures
            routine_is(
                routine,
                routine_on(
                    host,
                    Platform::MacOs,
                    StartupActionView::InstallLaunchAgent { content: launch_agent_text(exe@) },
                ),
            ),
    {
        match host {
            Platform::MacOs => {
                let mut content = joined(
                    "<?xml version=\"1.0\" encoding=\"UTF-8\"?>\n<!DOCTYPE plist PUBLIC \"-//Apple//DTD PLIST 1.0//EN\" \"http://www.apple.com/DTDs/PropertyList-1.0.dtd\">\n<plist version=\"1.0\">\n<dict>\n    <key>Label</key>\n    <string>com.pomodoro.app</string>\n    <key>ProgramArguments</key>\n    <array>\n        <string>",
                    exe,
                );
                content.append(
                    "</string>\n        <string>--minimized</string>\n    </array>\n    <key>RunAtLoad</key>\n    <true/>\n    <key>KeepAlive</key>\n    <false/>\n    <key>LaunchOnlyOnce</key>\n    <true/>\n</dict>\n</plist>",
                );
                Ok(StartupAction::InstallLaunchAgent { content })
            },
            _ => Err(StartupError::NotAvailable(Platform::MacOs)),
        }
    }

    /// Takes the registration back on macOS.
    pub fn disable_startup_macos(&self, host: Platform) -> (routine: Result<
        StartupAction,
        StartupError,
    >)
        ensures
            routine_is(
                routine,
                routine_on(host, Platform::MacOs, StartupActionView::RemoveLaunchAgent),
            ),
    {
        match host {
            Platform::MacOs => Ok(StartupAction::RemoveLaunchAgent),
            _ => Err(StartupError::NotAvailable(Platform::MacOs)),
        }
    }

    /// Looks for the registration on macOS: it is there where the launch
    /// agent exists.
    pub fn is_startup_enabled_macos(&self, host: Platform) -> (routine: Result<
        StartupAction,
        StartupError,
    >)
        ensures
            routine_is(
                routine,
                routine_on(
                    host,
                    Platform::MacOs,
                    StartupActionView::LookForFile { file: LAUNCH_AGENT_FILE@ },
                ),
            ),
    {
        match host {
            Platform::MacOs => Ok(StartupAction::LookForFile { file: LAUNCH_AGENT_FILE }),
            _ => Err(StartupError::NotAvailable(Platform::MacOs)),
        }
    }

    /// Registers the application `exe` on Linux.
    pub fn enable_startup_linux(&self, host: Platform, exe: &str) -> (routine: Result<
        StartupAction,
        StartupError,
    >)
        ensures
            routine_is(
                routine,
                routine_on(
                    host,
                    Platform::Linux,
                    StartupActionView::InstallDesktopEntry { content: desktop_entry_text(exe@) },
                ),
            ),
    {
        match host {
            Platform::Linux => {
                let mut content = joined(
                    "[Desktop Entry]\nType=Application\nName=Pomodoro\nComment=Pomodoro task and time management application\nIcon=pomodoro\nExec=",
                    exe,
                );
                content.append(
                    " --minimized\nTerminal=false\nX-GNOME-Autostart-enabled=true\nStartupNotify=false\nHidden=false",
                );
                Ok(StartupAction::InstallDesktopEntry { content })
            },
            _ => Err(StartupError::NotAvailable(Platform::Linux)),
        }
    }

    /// Takes the registration back on Linux.
    pub fn disable_startup_linux(&self, host: Platform) -> (routine: Result<
        StartupAction,
        StartupError,
    >)
        ensures
            routine_is(
                routine,
                routine_on(host, Platform::Linux, StartupActionView::RemoveDesktopEntry),
            ),
    {
        match host {
            Platform::Linux => Ok(StartupAction::RemoveDesktopEntry),
            _ => Err(StartupError::NotAvailable(Platform::Linux)),
        }
    }

    /// Looks for the registration on Linux: it is there where the autostart
    /// entry exists.
    pub fn is_startup_enabled_linux(&self, host: Platform) -> (routine: Result<
        StartupAction,
        StartupError,
    >)
        ensures
            routine_is(
                routine,
                routine_on(
                    host,
                    Platform::Linux,
                    StartupActionView::LookForFile { file: DESKTOP_ENTRY_FILE@ },
                ),
            ),
    {
        match host {
            Platform::Linux => Ok(StartupAction::LookForFile { file: DESKTOP_ENTRY_FILE }),
            _ => Err(StartupError::NotAvailable(Platform::Linux)),
        }
    }

    /// Judges a command of the operating system by how it ended and what
    /// it wrote to its error stream.
    pub fn judge_command(&self, doing: StartupStep, success: bool, stderr: String) -> (verdict:
        Result<(), StartupError>)
        ensures
            verdict == if command_passes(doing, success, stderr@) {
                Ok::<(), StartupError>(())
            } else {
                Err::<(), StartupError>(StartupError::CommandFailed { doing, stderr })
            },
    {
        if success {
            return Ok(());
        }
        match doing {
            StartupStep::DisableStartup => {
                if contains_text(stderr.as_str(), "cannot find") || contains_text(
                    stderr.as_str(),
                    "not found",
                ) {
                    Ok(())
                } else {
                    Err(StartupError::CommandFailed { doing, stderr })
                }
            },
            _ => Err(StartupError::CommandFailed { doing, stderr }),
        }
    }
}

} // verus!
