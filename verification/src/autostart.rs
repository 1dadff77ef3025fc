//! Starting at login: per platform, the registry command or the file that
//! registers the program, and how to undo it.

use vstd::prelude::*;

verus! {

/// The platforms the tool runs on.
#[derive(Debug, Clone, Copy, PartialEq, Eq, Structural)]
pub enum Platform {
    Windows,
    MacOs,
    Linux,
}

/// The directory a registration file is placed under.
#[derive(Debug, Clone, Copy, PartialEq, Eq, Structural)]
pub enum BaseDir {
    /// The user's home directory.
    Home,
    /// The user's configuration directory.
    Config,
}

/// One thing to do to register or unregister the program. Failures of the
/// step are ignored, and a step under a base directory that cannot be
/// found is skipped.
pub enum AutostartStep {
    /// Run the `reg` tool with these arguments.
    Registry { args: Vec<String> },
    /// Create the folder at `relative` under `base`, with its parents.
    CreateDir { base: BaseDir, relative: String },
    /// Write `contents` to the file at `relative` under `base`.
    WriteFile { base: BaseDir, relative: String, contents: String },
    /// Remove the file at `relative` under `base`.
    RemoveFile { base: BaseDir, relative: String },
}

/// A step with its strings as character sequences.
pub enum StepView {
    Registry(Seq<Seq<char>>),
    CreateDir(BaseDir, Seq<char>),
    WriteFile(BaseDir, Seq<char>, Seq<char>),
    RemoveFile(BaseDir, Seq<char>),
}

impl View for AutostartStep {
    type V = StepView;

    open spec fn view(&self) -> StepView {
        match self {
            AutostartStep::Registry { args } => StepView::Registry(
                args@.map_values(|s: String| s@),
            ),
            AutostartStep::CreateDir { base, relative } => StepView::CreateDir(*base, relative@),
            AutostartStep::WriteFile { base, relative, contents } => StepView::WriteFile(
                *base,
                relative@,
                contents@,
            ),
            AutostartStep::RemoveFile { base, relative } => StepView::RemoveFile(*base, relative@),
        }
    }
}

/// The steps as character sequences.
pub open spec fn steps_view(v: Seq<AutostartStep>) -> Seq<StepView> {
    v.map_values(|st: AutostartStep| st@)
}

/// The registry key of programs run at login.
pub open spec fn run_key() -> Seq<char> {
    "HKCU\\Software\\Microsoft\\Windows\\CurrentVersion\\Run"@
}

/// Arguments of `reg` that register `exe` under the name `keep-awake`.
pub open spec fn registry_add_args(exe: Seq<char>) -> Seq<Seq<char>> {
    seq!["add"@, run_key(), "/v"@, "keep-awake"@, "/t"@, "REG_SZ"@, "/d"@, exe, "/f"@]
}

/// Arguments of `reg` that remove the `keep-awake` entry.
pub open spec fn registry_delete_args() -> Seq<Seq<char>> {
    seq!["delete"@, run_key(), "/v"@, "keep-awake"@, "/f"@]
}

/// The folder of launch agents, under the home directory.
pub open spec fn launch_agents_dir() -> Seq<char> {
    "Library/LaunchAgents"@
}

/// The folder of autostart entries, under the configuration directory.
pub open spec fn autostart_dir() -> Seq<char> {
    "autostart"@
}

/// Where the launch agent lives, under the home directory.
pub open spec fn launch_agent_path() -> Seq<char> {
    "Library/LaunchAgents/com.keep-awake.plist"@
}

/// Where the autostart entry lives, under the configuration directory.
pub open spec fn desktop_entry_path() -> Seq<char> {
    "autostart/keep-awake.desktop"@
}

/// The launch agent property list that runs `exe` at load.
pub open spec fn launch_agent_text(exe: Seq<char>) -> Seq<char> {
    "<?xml version=\"1.0\"?>\n<!DOCTYPE plist PUBLIC \"-//Apple//DTD PLIST 1.0//EN\" \"http://www.apple.com/DTDs/PropertyList-1.0.dtd\">\n<plist version=\"1.0\"><dict>\n<key>Label</key><string>com.keep-awake</string>\n<key>ProgramArguments</key><array><string>"@
        + exe + "</string></array>\n<key>RunAtLoad</key><true/>\n</dict></plist>"@
}

/// The desktop entry that starts `exe` at login.
pub open spec fn desktop_entry_text(exe: Seq<char>) -> Seq<char> {
    "[Desktop Entry]\nType=Application\nName=Keep Awake\nExec="@ + exe
        + "\nX-GNOME-Autostart-enabled=true\n"@
}

/// The steps that register `exe` to start at login: a registry entry, or
/// the folder and then the file.
pub open spec fn enable_plan(p: Platform, exe: Seq<char>) -> Seq<StepView> {
    match p {
        Platform::Windows => seq![StepView::Registry(registry_add_args(exe))],
        Platform::MacOs => seq![
            StepView::CreateDir(BaseDir::Home, launch_agents_dir()),
            StepView::WriteFile(BaseDir::Home, launch_agent_path(), launch_agent_text(exe)),
        ],
        Platform::Linux => seq![
            StepView::CreateDir(BaseDir::Config, autostart_dir()),
            StepView::WriteFile(BaseDir::Config, desktop_entry_path(), desktop_entry_text(exe)),
        ],
    }
}

/// The steps that undo the registration.
pub open spec fn disable_plan(p: Platform) -> Seq<StepView> {
    match p {
        Platform::Windows => seq![StepView::Registry(registry_delete_args())],
        Platform::MacOs => seq![StepView::RemoveFile(BaseDir::Home, launch_agent_path())],
        Platform::Linux => seq![StepView::RemoveFile(BaseDir::Config, desktop_entry_path())],
    }
}

/// The steps for switching autostart on (`enabled`) or off; switching on
/// needs the path of the running program and does nothing without it.
pub open spec fn apply_plan(p: Platform, enabled: bool, exe: Option<Seq<char>>) -> Seq<StepView> {
    if enabled {
        match exe {
            Some(e) => enable_plan(p, e),
            None => seq![],
        }
    } else {
        disable_plan(p)
    }
}

fn owned(s: &str) -> (r: String)
    ensures
        r@ == s@,
{
    String::from_str(s)
}

fn registry_args_enable(exe: &str) -> (v: Vec<String>)
    ensures
        v@.map_values(|s: String| s@) == registry_add_args(exe@),
{
    let mut v: Vec<String> = Vec::new();
    v.push(owned("add"));
    v.push(owned("HKCU\\Software\\Microsoft\\Windows\\CurrentVersion\\Run"));
    v.push(owned("/v"));
    v.push(owned("keep-awake"));
    v.push(owned("/t"));
    v.push(owned("REG_SZ"));
    v.push(owned("/d"));
    v.push(owned(exe));
    v.push(owned("/f"));
    assert(v@.map_values(|s: String| s@) =~= registry_add_args(exe@));
    v
}

fn registry_args_disable() -> (v: Vec<String>)
    ensures
        v@.map_values(|s: String| s@) == registry_delete_args(),
{
    let mut v: Vec<String> = Vec::new();
    v.push(owned("delete"));
    v.push(owned("HKCU\\Software\\Microsoft\\Windows\\CurrentVersion\\Run"));
    v.push(owned("/v"));
    v.push(owned("keep-awake"));
    v.push(owned("/f"));
    assert(v@.map_values(|s: String| s@) =~= registry_delete_args());
    v
}

/// The property list of a launch agent that runs `exe` at load.
pub fn launch_agent(exe: &str) -> (s: String)
    ensures
        s@ == launch_agent_text(exe@),
{
    let mut s = String::from_str(
        "<?xml version=\"1.0\"?>\n<!DOCTYPE plist PUBLIC \"-//Apple//DTD PLIST 1.0//EN\" \"http://www.apple.com/DTDs/PropertyList-1.0.dtd\">\n<plist version=\"1.0\"><dict>\n<key>Label</key><string>com.keep-awake</string>\n<key>ProgramArguments</key><array><string>",
    );
    s.append(exe);
    s.append("</string></array>\n<key>RunAtLoad</key><true/>\n</dict></plist>");
    s
}

/// The desktop entry that starts `exe` at login.
pub fn desktop_entry(exe: &str) -> (s: String)
    ensures
        s@ == desktop_entry_text(exe@),
{
    let mut s = String::from_str("[Desktop Entry]\nType=Application\nName=Keep Awake\nExec=");
    s.append(exe);
    s.append("\nX-GNOME-Autostart-enabled=true\n");
    s
}

/// The steps that register `exe` to start at login on platform `p`.
pub fn enable_steps(p: Platform, exe: &str) -> (v: Vec<AutostartStep>)
    ensures
        steps_view(v@) == enable_plan(p, exe@),
{
    let mut v: Vec<AutostartStep> = Vec::new();
    match p {
        Platform::Windows => {
            v.push(AutostartStep::Registry { args: registry_args_enable(exe) });
        },
        Platform::MacOs => {
            v.push(AutostartStep::CreateDir { base: BaseDir::Home, relative: owned("Library/LaunchAgents") });
            v.push(
                AutostartStep::WriteFile {
                    base: BaseDir::Home,
                    relative: owned("Library/LaunchAgents/com.keep-awake.plist"),
                    contents: launch_agent(exe),
                },
            );
        },
        Platform::Linux => {
            v.push(AutostartStep::CreateDir { base: BaseDir::Config, relative: owned("autostart") });
            v.push(
                AutostartStep::WriteFile {
                    base: BaseDir::Config,
                    relative: owned("autostart/keep-awake.desktop"),
                    contents: desktop_entry(exe),
                },
            );
        },
    }
    assert(steps_view(v@) =~= enable_plan(p, exe@));
    v
}

/// The steps that undo the registration on platform `p`.
pub fn disable_steps(p: Platform) -> (v: Vec<AutostartStep>)
    ensures
        steps_view(v@) == disable_plan(p),
{
    let mut v: Vec<AutostartStep> = Vec::new();
    match p {
        Platform::Windows => {
            v.push(AutostartStep::Registry { args: registry_args_disable() });
        },
        Platform::MacOs => {
            v.push(
                AutostartStep::RemoveFile {
                    base: BaseDir::Home,
                    relative: owned("Library/LaunchAgents/com.keep-awake.plist"),
                },
            );
        },
        Platform::Linux => {
            v.push(
                AutostartStep::RemoveFile {
                    base: BaseDir::Config,
                    relative: owned("autostart/keep-awake.desktop"),
                },
            );
        },
    }
    assert(steps_view(v@) =~= disable_plan(p));
    v
}

/// The steps for switching autostart on or off on platform `p`, given the
/// path of the running program when it could be found.
pub fn apply_steps(p: Platform, enabled: bool, exe: Option<&str>) -> (v: Vec<AutostartStep>)
    ensures
        steps_view(v@) == apply_plan(
            p,
            enabled,
            match exe {
                Some(e) => Some(e@),
                None => None,
            },
        ),
{
    if enabled {
        match exe {
            Some(e) => enable_steps(p, e),
            None => {
                let v: Vec<AutostartStep> = Vec::new();
                assert(steps_view(v@) =~= Seq::<StepView>::empty());
                v
            },
        }
    } else {
        disable_steps(p)
    }
}

} // verus!
