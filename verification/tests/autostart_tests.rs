use keep_awake::autostart::{
    apply_steps, desktop_entry, disable_steps, enable_steps, launch_agent, AutostartStep, BaseDir, Platform,
};

fn args(step: &AutostartStep) -> Vec<String> {
    match step {
        AutostartStep::Registry { args } => args.clone(),
        _ => panic!("not a registry step"),
    }
}

#[test]
fn windows_registry_commands() {
    let on = enable_steps(Platform::Windows, "C:\\Tools\\keep-awake.exe");
    assert_eq!(on.len(), 1);
    assert_eq!(
        args(&on[0]),
        vec![
            "add",
            "HKCU\\Software\\Microsoft\\Windows\\CurrentVersion\\Run",
            "/v",
            "keep-awake",
            "/t",
            "REG_SZ",
            "/d",
            "C:\\Tools\\keep-awake.exe",
            "/f"
        ]
    );
    let off = disable_steps(Platform::Windows);
    assert_eq!(off.len(), 1);
    assert_eq!(
        args(&off[0]),
        vec!["delete", "HKCU\\Software\\Microsoft\\Windows\\CurrentVersion\\Run", "/v", "keep-awake", "/f"]
    );
}

#[test]
fn linux_desktop_entry() {
    let text = desktop_entry("/usr/bin/keep-awake");
    assert_eq!(
        text,
        "[Desktop Entry]\nType=Application\nName=Keep Awake\nExec=/usr/bin/keep-awake\nX-GNOME-Autostart-enabled=true\n"
    );
    let steps = enable_steps(Platform::Linux, "/usr/bin/keep-awake");
    assert_eq!(steps.len(), 2);
    match &steps[0] {
        AutostartStep::CreateDir { base, relative } => {
            assert_eq!(*base, BaseDir::Config);
            assert_eq!(relative, "autostart");
        }
        _ => panic!("expected the folder first"),
    }
    match &steps[1] {
        AutostartStep::WriteFile { base, relative, contents } => {
            assert_eq!(*base, BaseDir::Config);
            assert_eq!(relative, "autostart/keep-awake.desktop");
            assert_eq!(*contents, text);
        }
        _ => panic!("expected a file"),
    }
    let off = disable_steps(Platform::Linux);
    assert_eq!(off.len(), 1);
    match &off[0] {
        AutostartStep::RemoveFile { base, relative } => {
            assert_eq!(*base, BaseDir::Config);
            assert_eq!(relative, "autostart/keep-awake.desktop");
        }
        _ => panic!("expected a removal"),
    }
}

#[test]
fn macos_launch_agent() {
    let text = launch_agent("/Applications/keep-awake");
    let expected = format!(
        r#"<?xml version="1.0"?>
<!DOCTYPE plist PUBLIC "-//Apple//DTD PLIST 1.0//EN" "http://www.apple.com/DTDs/PropertyList-1.0.dtd">
<plist version="1.0"><dict>
<key>Label</key><string>com.keep-awake</string>
<key>ProgramArguments</key><array><string>{}</string></array>
<key>RunAtLoad</key><true/>
</dict></plist>"#,
        "/Applications/keep-awake"
    );
    assert_eq!(text, expected);
    let steps = enable_steps(Platform::MacOs, "/Applications/keep-awake");
    assert_eq!(steps.len(), 2);
    match &steps[0] {
        AutostartStep::CreateDir { base, relative } => {
            assert_eq!(*base, BaseDir::Home);
            assert_eq!(relative, "Library/LaunchAgents");
        }
        _ => panic!("expected the folder first"),
    }
    match &steps[1] {
        AutostartStep::WriteFile { base, relative, contents } => {
            assert_eq!(*base, BaseDir::Home);
            assert_eq!(relative, "Library/LaunchAgents/com.keep-awake.plist");
            assert_eq!(*contents, expected);
        }
        _ => panic!("expected a file"),
    }
    let off = disable_steps(Platform::MacOs);
    match &off[0] {
        AutostartStep::RemoveFile { base, relative } => {
            assert_eq!(*base, BaseDir::Home);
            assert_eq!(relative, "Library/LaunchAgents/com.keep-awake.plist");
        }
        _ => panic!("expected a removal"),
    }
}

#[test]
fn apply_without_program_path_does_nothing() {
    assert!(apply_steps(Platform::Linux, true, None).is_empty());
    assert!(matches!(apply_steps(Platform::Linux, false, None)[..], [AutostartStep::RemoveFile { .. }]));
    assert!(matches!(
        apply_steps(Platform::Linux, true, Some("/bin/x"))[..],
        [AutostartStep::CreateDir { .. }, AutostartStep::WriteFile { .. }]
    ));
}
