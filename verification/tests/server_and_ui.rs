use kenbun::server::{
    bun_arguments, launch_message, monitor_step, port_cleanup_script, port_gate, port_probe_script,
    preload_script, probe_reports_listener, project_gate, taskkill_command,
    ChildStatus, MonitorStep, ServerSlot, StartError, StopPlan, PRELOAD_FILE_NAME,
};
use kenbun::ui::{
    bun_version_label, toggle_label, tray_menu_action, tray_title, window_event_action,
    TrayAction, WindowAction, WindowEventKind, DEFAULT_PORT,
};

fn gate(conflict: bool, in_use: bool, running: bool, path: &str) -> String {
    let mut slot: ServerSlot<u32> = ServerSlot::new();
    if running {
        slot.install(1);
    }
    let checks = port_gate(conflict, in_use)
        .and_then(|_| slot.check_idle())
        .and_then(|_| project_gate(path));
    match checks {
        Ok(()) => "OK".to_string(),
        Err(e) => e.message(),
    }
}

#[test]
fn start_gate_checks_in_order() {
    assert_eq!(gate(true, true, true, ""), "PORT_IN_USE");
    assert_eq!(gate(false, true, true, ""), "Application is already running");
    assert_eq!(gate(true, false, true, "C:\\p"), "Application is already running");
    assert_eq!(gate(true, false, false, ""), "Please select a project folder first");
    assert_eq!(gate(false, true, false, "C:\\p"), "OK");
    assert_eq!(gate(true, false, false, "C:\\p"), "OK");
}

#[test]
fn start_error_messages() {
    assert_eq!(StartError::StateUnavailable.message(), "Failed to lock state");
    assert_eq!(StartError::PathUnavailable.message(), "Failed to access path");
    assert_eq!(
        StartError::PreloadWriteFailed("access denied".to_string()).message(),
        "Failed to create preload script: access denied"
    );
    assert_eq!(
        StartError::SpawnFailed("program not found".to_string()).message(),
        "Gagal menjalankan Bun: program not found. Pastikan Bun terinstal."
    );
    assert_eq!(StartError::StdoutUnavailable.message(), "Gagal mengambil stdout");
    assert_eq!(StartError::StderrUnavailable.message(), "Gagal mengambil stderr");
}

#[test]
fn preload_interceptor_text() {
    let expected = format!(
        "// KenBun Preload Interceptor - DO NOT EDIT\n\
         // This file is auto-generated and will be cleaned up automatically.\n\
         const _originalServe = Bun.serve;\n\
         Bun.serve = function(options) {{\n\
           const forcedPort = parseInt(process.env.PORT);\n\
           if (forcedPort && options.port !== forcedPort) {{\n\
             console.log(`[KenBun Interceptor] Overriding port ${{options.port}} \u{2192} ${{forcedPort}}`);\n\
             options.port = forcedPort;\n\
           }}\n\
           return _originalServe.call(this, options);\n\
         }};\n"
    );
    assert_eq!(preload_script(), expected);
    assert_eq!(PRELOAD_FILE_NAME, ".kenbun-preload.js");
}

#[test]
fn launch_message_names_mode_port_and_script() {
    assert_eq!(launch_message(true, 3000, "index.js"), "Executing [FORCED]: PORT=3000 bun run index.js");
    assert_eq!(launch_message(false, 8080, "src/app.ts"), "Executing [ADAPTIVE]: PORT=8080 bun run src/app.ts");
    assert_eq!(launch_message(false, 0, "a"), "Executing [ADAPTIVE]: PORT=0 bun run a");
}

#[test]
fn bun_arguments_preload_only_when_forced_and_present() {
    assert_eq!(
        bun_arguments(true, true, "C:\\p\\.kenbun-preload.js", "index.js"),
        vec!["run", "--preload", "C:\\p\\.kenbun-preload.js", "index.js"]
    );
    assert_eq!(bun_arguments(true, false, "x", "index.js"), vec!["run", "index.js"]);
    assert_eq!(bun_arguments(false, true, "x", "app.ts"), vec!["run", "app.ts"]);
}

#[test]
fn separate_gates() {
    assert!(matches!(port_gate(true, true), Err(StartError::PortInUse)));
    assert!(port_gate(false, true).is_ok());
    assert!(port_gate(true, false).is_ok());
    assert!(matches!(project_gate(""), Err(StartError::NoProjectSelected)));
    assert!(project_gate("C:\\p").is_ok());
}

#[test]
fn slot_holds_one_child_at_a_time() {
    let mut slot: ServerSlot<u32> = ServerSlot::new();
    assert!(!slot.is_running());
    assert!(slot.check_idle().is_ok());
    assert_eq!(slot.install(41), None);
    assert!(slot.is_running());
    assert!(matches!(slot.check_idle(), Err(StartError::AlreadyRunning)));
    assert_eq!(slot.install(42), Some(41));
    assert_eq!(slot.child_mut().map(|c| *c), Some(42));
}

#[test]
fn start_then_stop_then_stop_again() {
    let mut slot: ServerSlot<u32> = ServerSlot::new();
    slot.install(7);
    assert!(matches!(slot.stop(), StopPlan::Kill(7)));
    assert!(!slot.is_running());
    assert!(slot.check_idle().is_ok());
    assert!(matches!(slot.stop(), StopPlan::CleanupPort));
    assert!(!slot.is_running());
}

#[test]
fn watcher_releases_an_exited_child() {
    let mut slot: ServerSlot<u32> = ServerSlot::new();
    slot.install(9);
    assert!(matches!(slot.watch(ChildStatus::Running), MonitorStep::KeepWatching));
    assert!(slot.is_running());
    assert!(matches!(slot.watch(ChildStatus::Unavailable), MonitorStep::KeepWatching));
    assert!(slot.is_running());
    assert!(matches!(slot.watch(ChildStatus::Exited), MonitorStep::ReleaseAndAnnounce));
    assert!(!slot.is_running());
    assert!(slot.check_idle().is_ok());
    slot.install(10);
    assert!(matches!(slot.watch(ChildStatus::WaitFailed), MonitorStep::ReleaseAndAnnounce));
    assert!(!slot.is_running());
    assert!(matches!(slot.watch(ChildStatus::NoChild), MonitorStep::Announce));
    if let Some(c) = slot.child_mut() {
        *c += 1;
    }
    assert!(slot.child_mut().is_none());
}

#[test]
fn child_mut_changes_the_held_child() {
    let mut slot: ServerSlot<u32> = ServerSlot::new();
    slot.install(1);
    if let Some(c) = slot.child_mut() {
        *c = 5;
    }
    assert!(matches!(slot.stop(), StopPlan::Kill(5)));
}

#[test]
fn exit_watcher_decisions() {
    assert!(matches!(monitor_step(ChildStatus::Running), MonitorStep::KeepWatching));
    assert!(matches!(monitor_step(ChildStatus::Unavailable), MonitorStep::KeepWatching));
    assert!(matches!(monitor_step(ChildStatus::Exited), MonitorStep::ReleaseAndAnnounce));
    assert!(matches!(monitor_step(ChildStatus::WaitFailed), MonitorStep::ReleaseAndAnnounce));
    assert!(matches!(monitor_step(ChildStatus::NoChild), MonitorStep::Announce));
}

#[test]
fn shell_commands_carry_the_number() {
    assert_eq!(
        port_cleanup_script(3000),
        "Get-NetTCPConnection -LocalPort 3000 -ErrorAction SilentlyContinue | Select-Object -ExpandProperty OwningProcess | ForEach-Object { Stop-Process -Id $_ -Force -ErrorAction SilentlyContinue }"
    );
    assert_eq!(
        port_probe_script(5173),
        "Get-NetTCPConnection -LocalPort 5173 -State Listen -ErrorAction SilentlyContinue"
    );
    assert_eq!(taskkill_command(4242), "taskkill /F /T /PID 4242");
    assert_eq!(taskkill_command(u32::MAX), "taskkill /F /T /PID 4294967295");
}

#[test]
fn probe_output_means_a_listener() {
    assert!(!probe_reports_listener(&[]));
    assert!(probe_reports_listener(b"LocalAddress LocalPort"));
}

#[test]
fn tray_labels() {
    assert_eq!(tray_title(""), "KenBun");
    assert_eq!(tray_title("my-api"), "KenBun: my-api");
    assert_eq!(toggle_label(true), "Stop Server");
    assert_eq!(toggle_label(false), "Start Server");
}

#[test]
fn tray_menu_entries() {
    assert!(matches!(tray_menu_action("quit"), TrayAction::Quit));
    assert!(matches!(tray_menu_action("toggle"), TrayAction::Toggle));
    assert!(matches!(tray_menu_action("title"), TrayAction::Ignore));
    assert!(matches!(tray_menu_action("Quit"), TrayAction::Ignore));
    assert_eq!(DEFAULT_PORT, 3000);
}

#[test]
fn window_events_on_main_only() {
    assert!(matches!(window_event_action("main", WindowEventKind::Destroyed), WindowAction::StopServer));
    assert!(matches!(window_event_action("main", WindowEventKind::CloseRequested), WindowAction::Hide));
    assert!(matches!(window_event_action("main", WindowEventKind::Other), WindowAction::Nothing));
    assert!(matches!(window_event_action("log-window", WindowEventKind::Destroyed), WindowAction::Nothing));
    assert!(matches!(window_event_action("guide-window", WindowEventKind::CloseRequested), WindowAction::Nothing));
}

#[test]
fn version_label_trims_or_says_not_found() {
    assert_eq!(bun_version_label(Some("1.1.38\n")), "1.1.38");
    assert_eq!(bun_version_label(Some("  \r\n")), "Not Found");
    assert_eq!(bun_version_label(Some("")), "Not Found");
    assert_eq!(bun_version_label(None), "Not Found");
}
