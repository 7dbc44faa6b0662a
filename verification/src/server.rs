//! Starting, watching and stopping the Bun server: every decision the commands
//! take, and the exact texts they hand to the shell and to `bun`.

use vstd::prelude::*;
use vstd::string::StringExecFns;
use crate::number::{all_digits, decimal, lemma_decimal_digits, lemma_decimal_injective, parse_u16_spec, push_decimal};

verus! {

/// Why the server could not be started.
pub enum StartError {
    /// Port checking is on and the port already has a listener.
    PortInUse,
    /// A server started earlier is still running.
    AlreadyRunning,
    /// No project folder has been chosen.
    NoProjectSelected,
    /// The shared process slot could not be locked.
    StateUnavailable,
    /// The shared project path could not be read.
    PathUnavailable,
    /// The port interceptor file could not be written (the reason).
    PreloadWriteFailed(String),
    /// `bun` could not be started (the reason).
    SpawnFailed(String),
    /// The child's standard output could not be taken.
    StdoutUnavailable,
    /// The child's standard error could not be taken.
    StderrUnavailable,
}

/// The message the user interface receives for a failed start.
pub open spec fn start_error_message(e: StartError) -> Seq<char> {
    match e {
        StartError::PortInUse => "PORT_IN_USE"@,
        StartError::AlreadyRunning => "Application is already running"@,
        StartError::NoProjectSelected => "Please select a project folder first"@,
        StartError::StateUnavailable => "Failed to lock state"@,
        StartError::PathUnavailable => "Failed to access path"@,
        StartError::PreloadWriteFailed(reason) => "Failed to create preload script: "@ + reason@,
        StartError::SpawnFailed(reason) => "Gagal menjalankan Bun: "@ + reason@ + ". Pastikan Bun terinstal."@,
        StartError::StdoutUnavailable => "Gagal mengambil stdout"@,
        StartError::StderrUnavailable => "Gagal mengambil stderr"@,
    }
}

impl StartError {
    /// The message the user interface receives.
    pub fn message(&self) -> (s: String)
        ensures
            s@ == start_error_message(*self),
    {
        match self {
            StartError::PortInUse => String::from_str("PORT_IN_USE"),
            StartError::AlreadyRunning => String::from_str("Application is already running"),
            StartError::NoProjectSelected => String::from_str("Please select a project folder first"),
            StartError::StateUnavailable => String::from_str("Failed to lock state"),
            StartError::PathUnavailable => String::from_str("Failed to access path"),
            StartError::PreloadWriteFailed(reason) => {
                let mut s = String::from_str("Failed to create preload script: ");
                s.append(reason.as_str());
                s
            },
            StartError::SpawnFailed(reason) => {
                let mut s = String::from_str("Gagal menjalankan Bun: ");
                s.append(reason.as_str());
                s.append(". Pastikan Bun terinstal.");
                s
            },
            StartError::StdoutUnavailable => String::from_str("Gagal mengambil stdout"),
            StartError::StderrUnavailable => String::from_str("Gagal mengambil stderr"),
        }
    }
}

/// The first start check: with port checking on, a port that already has a
/// listener refuses the start.
pub fn port_gate(conflict_solver: bool, port_in_use: bool) -> (r: Result<(), StartError>)
    ensures
        match r {
            Ok(()) => !(conflict_solver && port_in_use),
            Err(e) => conflict_solver && port_in_use && e == StartError::PortInUse,
        },
{
    if conflict_solver && port_in_use {
        Err(StartError::PortInUse)
    } else {
        Ok(())
    }
}

/// The last start check: a project folder must have been chosen.
pub fn project_gate(project_path: &str) -> (r: Result<(), StartError>)
    ensures
        match r {
            Ok(()) => project_path@.len() > 0,
            Err(e) => project_path@.len() == 0 && e == StartError::NoProjectSelected,
        },
{
    if project_path.is_empty() {
        Err(StartError::NoProjectSelected)
    } else {
        Ok(())
    }
}

/// Name of the port interceptor file written into the project folder.
pub const PRELOAD_FILE_NAME: &'static str = ".kenbun-preload.js";

/// The port interceptor: a script preloaded into `bun` that makes every
/// `Bun.serve` call use the port in the `PORT` variable.
pub open spec fn preload_script_text() -> Seq<char> {
    "// KenBun Preload Interceptor - DO NOT EDIT\n// This file is auto-generated and will be cleaned up automatically.\nconst _originalServe = Bun.serve;\nBun.serve = function(options) {\nconst forcedPort = parseInt(process.env.PORT);\nif (forcedPort && options.port !== forcedPort) {\nconsole.log(`[KenBun Interceptor] Overriding port ${options.port} \u{2192} ${forcedPort}`);\noptions.port = forcedPort;\n}\nreturn _originalServe.call(this, options);\n};\n"@
}

/// The text of the port interceptor file.
pub fn preload_script() -> (s: String)
    ensures
        s@ == preload_script_text(),
{
    String::from_str("// KenBun Preload Interceptor - DO NOT EDIT\n// This file is auto-generated and will be cleaned up automatically.\nconst _originalServe = Bun.serve;\nBun.serve = function(options) {\nconst forcedPort = parseInt(process.env.PORT);\nif (forcedPort && options.port !== forcedPort) {\nconsole.log(`[KenBun Interceptor] Overriding port ${options.port} \u{2192} ${forcedPort}`);\noptions.port = forcedPort;\n}\nreturn _originalServe.call(this, options);\n};\n")
}

/// How the port is chosen: `FORCED` through the interceptor, else `ADAPTIVE`
/// (read back from the server's output).
pub open spec fn mode_label_spec(force_port: bool) -> Seq<char> {
    if force_port { "FORCED"@ } else { "ADAPTIVE"@ }
}

/// The line logged when a server is launched.
pub open spec fn launch_message_spec(force_port: bool, port: u16, run_script: Seq<char>) -> Seq<char> {
    "Executing ["@ + mode_label_spec(force_port) + "]: PORT="@ + decimal(port as nat) + " bun run "@ + run_script
}

/// The line logged when a server is launched.
pub fn launch_message(force_port: bool, port: u16, run_script: &str) -> (s: String)
    ensures
        s@ == launch_message_spec(force_port, port, run_script@),
{
    let mut s = String::from_str("Executing [");
    if force_port {
        s.append("FORCED");
    } else {
        s.append("ADAPTIVE");
    }
    s.append("]: PORT=");
    push_decimal(&mut s, port as u64);
    s.append(" bun run ");
    s.append(run_script);
    s
}

/// The arguments given to `bun`: the interceptor is preloaded when the port is
/// forced and the interceptor file exists.
pub open spec fn bun_arguments_spec(force_port: bool, preload_exists: bool, preload_path: Seq<char>, run_script: Seq<char>) -> Seq<Seq<char>> {
    if force_port && preload_exists {
        seq!["run"@, "--preload"@, preload_path, run_script]
    } else {
        seq!["run"@, run_script]
    }
}

/// The arguments given to `bun`.
pub fn bun_arguments(force_port: bool, preload_exists: bool, preload_path: &str, run_script: &str) -> (args: Vec<String>)
    ensures
        args@.map_values(|a: String| a@) == bun_arguments_spec(force_port, preload_exists, preload_path@, run_script@),
{
    let mut args: Vec<String> = Vec::new();
    args.push(String::from_str("run"));
    if force_port && preload_exists {
        args.push(String::from_str("--preload"));
        args.push(preload_path.to_owned());
    }
    args.push(run_script.to_owned());
    assert(args@.map_values(|a: String| a@) =~= bun_arguments_spec(force_port, preload_exists, preload_path@, run_script@));
    args
}

/// What stopping the server does.
pub enum StopPlan<C> {
    /// Kill this child process and its tree, then free the port.
    Kill(C),
    /// No child is held: free the port from whatever holds it.
    CleanupPort,
}

/// What a stop does with the held child: kill it, or clean the port when none is held.
pub open spec fn stop_plan_spec<C>(held: Option<C>) -> StopPlan<C> {
    match held {
        Some(c) => StopPlan::Kill(c),
        None => StopPlan::CleanupPort,
    }
}

/// The refusal of a start on account of the slot: a held child is still running.
pub open spec fn idle_refusal<C>(held: Option<C>) -> Option<StartError> {
    if held is Some {
        Some(StartError::AlreadyRunning)
    } else {
        None
    }
}

/// What the slot holds after the exit watcher saw `status`: a child that exited,
/// or whose status could not be read, is released; otherwise nothing changes.
pub open spec fn after_watch<C>(held: Option<C>, status: ChildStatus) -> Option<C> {
    if status is Exited || status is WaitFailed {
        None
    } else {
        held
    }
}

/// The one child process the application manages, if any (`C` is the
/// process handle).
pub struct ServerSlot<C> {
    child: Option<C>,
}

impl<C> ServerSlot<C> {
    /// The child held, if any.
    pub closed spec fn held(&self) -> Option<C> {
        self.child
    }

    /// An empty slot: no server is running.
    pub fn new() -> (s: ServerSlot<C>)
        ensures
            s.held() is None,
    {
        ServerSlot { child: None }
    }

    /// Whether a child is held.
    pub fn is_running(&self) -> (b: bool)
        ensures
            b == self.held() is Some,
    {
        self.child.is_some()
    }

    /// The start check on the slot: refused while a child is held.
    pub fn check_idle(&self) -> (r: Result<(), StartError>)
        ensures
            match r {
                Ok(()) => idle_refusal(self.held()) is None,
                Err(e) => idle_refusal(self.held()) == Some(e),
            },
    {
        if self.child.is_some() {
            Err(StartError::AlreadyRunning)
        } else {
            Ok(())
        }
    }

    /// Holds a newly launched child. Gives back whatever was held before
    /// (nothing, when the start checks were passed under the same lock).
    pub fn install(&mut self, child: C) -> (displaced: Option<C>)
        ensures
            final(self).held() == Some(child),
            displaced == old(self).held(),
    {
        let displaced = self.child.take();
        self.child = Some(child);
        displaced
    }

    /// The held child, to ask it for its status.
    pub fn child_mut(&mut self) -> (r: Option<&mut C>)
        ensures
            match old(self).held() {
                None => r is None && final(self).held() is None,
                Some(c) => r is Some && *r->0 == c && final(self).held() == Some(*final(r->0)),
            },
    {
        self.child.as_mut()
    }

    /// Stops the server: the slot is emptied, and the plan says whether to
    /// kill the child it held or, when none was held, to clean the port.
    pub fn stop(&mut self) -> (plan: StopPlan<C>)
        ensures
            final(self).held() is None,
            plan == stop_plan_spec(old(self).held()),
    {
        match self.child.take() {
            Some(c) => StopPlan::Kill(c),
            None => StopPlan::CleanupPort,
        }
    }

    /// One round of the exit watcher with the status it read: releases a
    /// child that exited or whose status could not be read, and says what to
    /// do next.
    pub fn watch(&mut self, status: ChildStatus) -> (step: MonitorStep)
        ensures
            final(self).held() == after_watch(old(self).held(), status),
            (status is Exited || status is WaitFailed) <==> step is ReleaseAndAnnounce,
            status is NoChild <==> step is Announce,
            (status is Running || status is Unavailable) <==> step is KeepWatching,
    {
        let step = monitor_step(status);
        match step {
            MonitorStep::ReleaseAndAnnounce => {
                self.child = None;
            },
            _ => {},
        }
        step
    }
}

/// What the exit watcher learnt about the child in one round.
pub enum ChildStatus {
    /// The shared slot could not be reached this round.
    Unavailable,
    /// The slot holds no child.
    NoChild,
    /// The child is still running.
    Running,
    /// The child has exited.
    Exited,
    /// Asking the child for its status failed.
    WaitFailed,
}

/// What the exit watcher does after one round.
pub enum MonitorStep {
    /// Sleep and look again.
    KeepWatching,
    /// Empty the slot, announce the exit and stop watching.
    ReleaseAndAnnounce,
    /// Announce the exit and stop watching.
    Announce,
}

/// The exit watcher's decision: a child that exited, or whose status cannot be
/// read, is released; an empty slot ends the watch; otherwise it keeps watching.
pub fn monitor_step(status: ChildStatus) -> (s: MonitorStep)
    ensures
        (status is Exited || status is WaitFailed) <==> s is ReleaseAndAnnounce,
        status is NoChild <==> s is Announce,
        (status is Running || status is Unavailable) <==> s is KeepWatching,
{
    match status {
        ChildStatus::Unavailable => MonitorStep::KeepWatching,
        ChildStatus::NoChild => MonitorStep::Announce,
        ChildStatus::Running => MonitorStep::KeepWatching,
        ChildStatus::Exited => MonitorStep::ReleaseAndAnnounce,
        ChildStatus::WaitFailed => MonitorStep::ReleaseAndAnnounce,
    }
}

/// The PowerShell script that stops every process owning a connection on `port`.
pub open spec fn cleanup_script_spec(port: u16) -> Seq<char> {
    "Get-NetTCPConnection -LocalPort "@ + decimal(port as nat)
        + " -ErrorAction SilentlyContinue | Select-Object -ExpandProperty OwningProcess | ForEach-Object { Stop-Process -Id $_ -Force -ErrorAction SilentlyContinue }"@
}

/// The PowerShell script that stops every process owning a connection on `port`.
pub fn port_cleanup_script(port: u16) -> (s: String)
    ensures
        s@ == cleanup_script_spec(port),
{
    let mut s = String::from_str("Get-NetTCPConnection -LocalPort ");
    push_decimal(&mut s, port as u64);
    s.append(" -ErrorAction SilentlyContinue | Select-Object -ExpandProperty OwningProcess | ForEach-Object { Stop-Process -Id $_ -Force -ErrorAction SilentlyContinue }");
    s
}

/// The PowerShell script that lists listeners on `port`.
pub open spec fn probe_script_spec(port: u16) -> Seq<char> {
    "Get-NetTCPConnection -LocalPort "@ + decimal(port as nat) + " -State Listen -ErrorAction SilentlyContinue"@
}

/// The PowerShell script that lists listeners on `port`.
pub fn port_probe_script(port: u16) -> (s: String)
    ensures
        s@ == probe_script_spec(port),
{
    let mut s = String::from_str("Get-NetTCPConnection -LocalPort ");
    push_decimal(&mut s, port as u64);
    s.append(" -State Listen -ErrorAction SilentlyContinue");
    s
}

/// The port has a listener exactly when the probe printed anything.
pub fn probe_reports_listener(probe_stdout: &[u8]) -> (b: bool)
    ensures
        b == (probe_stdout@.len() > 0),
{
    probe_stdout.len() > 0
}

/// The `cmd` command that kills process `pid` and all its children.
pub open spec fn taskkill_spec(pid: u32) -> Seq<char> {
    "taskkill /F /T /PID "@ + decimal(pid as nat)
}

/// The `cmd` command that kills process `pid` and all its children.
pub fn taskkill_command(pid: u32) -> (s: String)
    ensures
        s@ == taskkill_spec(pid),
{
    let mut s = String::from_str("taskkill /F /T /PID ");
    push_decimal(&mut s, pid as u64);
    s
}

/// At most one server at a time: while a child is held, the slot refuses a
/// start as already running.
pub proof fn lemma_running_refuses_start<C>(held: Option<C>)
    requires
        held is Some,
    ensures
        idle_refusal(held) == Some(StartError::AlreadyRunning),
{
}

/// A start followed by a stop: the stop kills exactly the child the start
/// installed, and the emptied slot admits the next start.
pub proof fn lemma_start_then_stop<C>(child: C)
    ensures
        stop_plan_spec(Some(child)) == StopPlan::Kill(child),
        idle_refusal::<C>(None) is None,
{
}

/// Stopping twice is harmless: a second stop finds the slot empty, leaves it
/// empty and only cleans the port.
pub proof fn lemma_stop_twice<C>()
    ensures
        stop_plan_spec::<C>(None) == StopPlan::<C>::CleanupPort,
        idle_refusal::<C>(None) is None,
{
}

/// An exit seen by the watcher (or a status that cannot be read) releases the
/// child, so the next start is not refused as already running.
pub proof fn lemma_exit_admits_start<C>(held: Option<C>, status: ChildStatus)
    requires
        status is Exited || status is WaitFailed,
    ensures
        after_watch(held, status) is None,
        idle_refusal(after_watch(held, status)) is None,
{
}

/// `text` names the port `port` right after `prefix`: what follows the
/// prefix is a run of ASCII digits that parses to `port`, then a space or the end.
pub open spec fn names_port_after(text: Seq<char>, prefix: Seq<char>, port: u16) -> bool {
    exists|digits: Seq<char>, rest: Seq<char>|
        #![trigger prefix + digits + rest]
        text == prefix + digits + rest
        && digits.len() > 0
        && all_digits(digits)
        && (rest.len() == 0 || rest[0] == ' ')
        && parse_u16_spec(digits) == Some(port)
}

proof fn lemma_prefix_digits_rest(prefix: Seq<char>, n: nat, rest: Seq<char>, port: u16)
    requires
        n == port as nat,
        rest.len() == 0 || rest[0] == ' ',
    ensures
        names_port_after(prefix + decimal(n) + rest, prefix, port),
{
    lemma_decimal_digits(n);
    crate::number::lemma_parse_decimal_roundtrip(port);
}

proof fn lemma_cancel_affixes(prefix: Seq<char>, a: Seq<char>, b: Seq<char>, suffix: Seq<char>)
    requires
        prefix + a + suffix == prefix + b + suffix,
    ensures
        a == b,
{
    let x = prefix + a + suffix;
    let y = prefix + b + suffix;
    assert(x.len() == y.len());
    assert(a =~= x.subrange(prefix.len() as int, (prefix.len() + a.len()) as int));
    assert(b =~= y.subrange(prefix.len() as int, (prefix.len() + b.len()) as int));
}

/// The port cleanup script names the port it is given, right after
/// `-LocalPort `, so different ports give different scripts.
pub proof fn lemma_cleanup_script_names_port(port: u16, other: u16)
    ensures
        names_port_after(cleanup_script_spec(port), "Get-NetTCPConnection -LocalPort "@, port),
        cleanup_script_spec(port) == cleanup_script_spec(other) ==> port == other,
{
    reveal_strlit(" -ErrorAction SilentlyContinue | Select-Object -ExpandProperty OwningProcess | ForEach-Object { Stop-Process -Id $_ -Force -ErrorAction SilentlyContinue }");
    let suffix = " -ErrorAction SilentlyContinue | Select-Object -ExpandProperty OwningProcess | ForEach-Object { Stop-Process -Id $_ -Force -ErrorAction SilentlyContinue }"@;
    lemma_prefix_digits_rest("Get-NetTCPConnection -LocalPort "@, port as nat, suffix, port);
    if cleanup_script_spec(port) == cleanup_script_spec(other) {
        lemma_cancel_affixes("Get-NetTCPConnection -LocalPort "@, decimal(port as nat), decimal(other as nat), suffix);
        lemma_decimal_injective(port as nat, other as nat);
    }
}

/// The listener probe names the port it is given, right after `-LocalPort `,
/// so different ports give different probes.
pub proof fn lemma_probe_script_names_port(port: u16, other: u16)
    ensures
        names_port_after(probe_script_spec(port), "Get-NetTCPConnection -LocalPort "@, port),
        probe_script_spec(port) == probe_script_spec(other) ==> port == other,
{
    reveal_strlit(" -State Listen -ErrorAction SilentlyContinue");
    let suffix = " -State Listen -ErrorAction SilentlyContinue"@;
    lemma_prefix_digits_rest("Get-NetTCPConnection -LocalPort "@, port as nat, suffix, port);
    if probe_script_spec(port) == probe_script_spec(other) {
        lemma_cancel_affixes("Get-NetTCPConnection -LocalPort "@, decimal(port as nat), decimal(other as nat), suffix);
        lemma_decimal_injective(port as nat, other as nat);
    }
}

/// The kill command names the process it is given: different process ids
/// give different commands, and the command ends with the id's digits.
pub proof fn lemma_taskkill_names_pid(pid: u32, other: u32)
    ensures
        taskkill_spec(pid) == taskkill_spec(other) ==> pid == other,
        exists|digits: Seq<char>| #![trigger "taskkill /F /T /PID "@ + digits]
            taskkill_spec(pid) == "taskkill /F /T /PID "@ + digits
            && digits.len() > 0 && all_digits(digits)
            && crate::number::digits_value(digits) == pid,
{
    lemma_decimal_digits(pid as nat);
    if taskkill_spec(pid) == taskkill_spec(other) {
        lemma_cancel_affixes("taskkill /F /T /PID "@, decimal(pid as nat), decimal(other as nat), Seq::empty());
        lemma_decimal_injective(pid as nat, other as nat);
    }
}

/// The launch arguments always run the entry script with `bun run`; the
/// interceptor is preloaded exactly when the port is forced and its file
/// exists, and without a forced port the arguments are just `run` and the script.
pub proof fn lemma_bun_arguments_shape(force_port: bool, preload_exists: bool, preload_path: Seq<char>, run_script: Seq<char>)
    ensures
        ({
            let args = bun_arguments_spec(force_port, preload_exists, preload_path, run_script);
            &&& args[0] == "run"@
            &&& args.last() == run_script
            &&& (args.len() == 4 <==> force_port && preload_exists)
            &&& (args.len() == 2 <==> !(force_port && preload_exists))
            &&& args.len() == 4 ==> args[1] == "--preload"@ && args[2] == preload_path
            &&& !force_port ==> args == seq!["run"@, run_script]
        }),
{
}

} // verus!
