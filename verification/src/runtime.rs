//! Runtime coordination between the wallpaper and its configurator: where
//! the shared files live, the single-instance lock, the autostart entry,
//! and the restart handshake. Every file-system effect is performed by the
//! caller; the functions here decide what those effects mean and what to do
//! next.
use vstd::prelude::*;
use crate::text::{
    contains_trimmed_line, decimal, has_prefix, has_trimmed_line, lemma_decimal_digits,
    lemma_trim_end_to, lemma_trim_start_from, parse_u32, parse_unsigned, push_decimal, str_eq,
    trim, trim_str, is_ws, starts_with, line_at,
};

verus! {

/// File name of the single-instance lock, inside the runtime directory.
pub const LOCK_FILE: &'static str = "wallpaper.lock";

/// File name of the cooperative restart request, inside the runtime directory.
pub const RESTART_SIGNAL_FILE: &'static str = "restart.signal";

/// File name of the XDG autostart entry.
pub const AUTOSTART_FILE: &'static str = "ninja.boop.OledWallpaper.desktop";

/// Flatpak application id of the wallpaper.
pub const FLATPAK_APP_ID: &'static str = "ninja.boop.OledWallpaper";

// ─── Paths ───────────────────────────────────────────────────────────────────

/// `base` joined with `seg` as `Path::join` does on Unix: an absolute `seg`
/// replaces `base`; otherwise a `/` separates them unless `base` is empty
/// or already ends with one.
pub open spec fn path_join(base: Seq<char>, seg: Seq<char>) -> Seq<char> {
    if seg.len() > 0 && seg[0] == '/' {
        seg
    } else if base.len() == 0 || base.last() == '/' {
        base + seg
    } else {
        base + seq!['/'] + seg
    }
}

/// Join `seg` onto `base` as `Path::join` does on Unix.
pub fn join_path(base: &str, seg: &str) -> (r: String)
    ensures
        r@ == path_join(base@, seg@),
{
    let m = seg.unicode_len();
    if m > 0 && seg.get_char(0) == '/' {
        return String::from_str(seg);
    }
    let n = base.unicode_len();
    let mut r = String::from_str(base);
    if n > 0 && base.get_char(n - 1) != '/' {
        r.append("/");
        proof {
            reveal_strlit("/");
        }
    }
    r.append(seg);
    r
}

/// The home directory the paths hang off: `$HOME`, or `.` when it is unset.
pub open spec fn home_or_dot(home: Option<Seq<char>>) -> Seq<char> {
    match home {
        Some(h) => h,
        None => "."@,
    }
}

/// The views of an optional string slice.
pub open spec fn opt_view(s: Option<&str>) -> Option<Seq<char>> {
    match s {
        Some(t) => Some(t@),
        None => None,
    }
}

/// The directory holding the configuration file and the runtime files.
pub open spec fn config_dir_path(home: Option<Seq<char>>) -> Seq<char> {
    path_join(home_or_dot(home), ".config/oled-wallpaper"@)
}

fn home_str<'a>(home: Option<&'a str>) -> (r: &'a str)
    ensures
        r@ == home_or_dot(opt_view(home)),
{
    match home {
        Some(h) => h,
        None => ".",
    }
}

/// The directory holding the configuration file and the runtime files,
/// for the home directory `home` (`None` when `$HOME` is unset).
pub fn config_dir(home: Option<&str>) -> (r: String)
    ensures
        r@ == config_dir_path(opt_view(home)),
{
    join_path(home_str(home), ".config/oled-wallpaper")
}

/// The configuration file.
pub fn config_path(home: Option<&str>) -> (r: String)
    ensures
        r@ == path_join(config_dir_path(opt_view(home)), "config.toml"@),
{
    let d = config_dir(home);
    join_path(d.as_str(), "config.toml")
}

/// The directory shared by the wallpaper and the configurator for their
/// lock and restart files.
pub fn runtime_dir(home: Option<&str>) -> (r: String)
    ensures
        r@ == config_dir_path(opt_view(home)),
{
    config_dir(home)
}

/// The single-instance lock file.
pub fn lock_path(home: Option<&str>) -> (r: String)
    ensures
        r@ == path_join(config_dir_path(opt_view(home)), LOCK_FILE@),
{
    let d = runtime_dir(home);
    join_path(d.as_str(), LOCK_FILE)
}

/// The restart request file.
pub fn restart_signal_path(home: Option<&str>) -> (r: String)
    ensures
        r@ == path_join(config_dir_path(opt_view(home)), RESTART_SIGNAL_FILE@),
{
    let d = runtime_dir(home);
    join_path(d.as_str(), RESTART_SIGNAL_FILE)
}

/// The XDG autostart entry: `~/.config/autostart/<AUTOSTART_FILE>`.
pub fn autostart_path(home: Option<&str>) -> (r: String)
    ensures
        r@ == path_join(
            path_join(path_join(home_or_dot(opt_view(home)), ".config"@), "autostart"@),
            AUTOSTART_FILE@,
        ),
{
    let a = join_path(home_str(home), ".config");
    let b = join_path(a.as_str(), "autostart");
    join_path(b.as_str(), AUTOSTART_FILE)
}

} // verus!

verus! {

// ─── Flatpak and the autostart command ───────────────────────────────────────

/// This process runs inside the wallpaper's Flatpak sandbox: `FLATPAK_ID`
/// (`flatpak_id`, if set) names the wallpaper's app id, or the sandbox
/// marker file `/.flatpak-info` exists.
pub fn is_flatpak(flatpak_id: Option<&str>, info_file_exists: bool) -> (b: bool)
    ensures
        b == (opt_view(flatpak_id) == Some(FLATPAK_APP_ID@) || info_file_exists),
{
    let id_matches = match flatpak_id {
        Some(id) => str_eq(id, FLATPAK_APP_ID),
        None => false,
    };
    id_matches || info_file_exists
}

/// The command that launches the wallpaper through Flatpak.
pub open spec fn flatpak_exec() -> Seq<char> {
    "flatpak run "@ + FLATPAK_APP_ID@
}

/// The `Exec=` command the autostart entry should hold: the Flatpak launch
/// when the wallpaper runs or is installed as a Flatpak (`via_flatpak`);
/// otherwise the wallpaper binary found beside the current executable
/// (`sibling_binary`), or the bare name `oled-wallpaper` for a `PATH` lookup.
pub fn autostart_exec(via_flatpak: bool, sibling_binary: Option<String>) -> (r: String)
    ensures
        r@ == (if via_flatpak {
            flatpak_exec()
        } else {
            match sibling_binary {
                Some(p) => p@,
                None => "oled-wallpaper"@,
            }
        }),
{
    if via_flatpak {
        let mut s = String::from_str("flatpak run ");
        s.append(FLATPAK_APP_ID);
        s
    } else {
        match sibling_binary {
            Some(p) => p,
            None => String::from_str("oled-wallpaper"),
        }
    }
}

// ─── The autostart entry ─────────────────────────────────────────────────────

/// The lines of the autostart entry before its `Exec=` line.
pub open spec fn desktop_header() -> Seq<char> {
    "[Desktop Entry]\nType=Application\nName=OLED Wallpaper\nComment=Start OLED Wallpaper as the desktop background at login\n"@
}

/// The lines of the autostart entry after its `Exec=` line.
pub open spec fn desktop_footer() -> Seq<char> {
    "\nTerminal=false\nX-GNOME-Autostart-enabled=true\nNoDisplay=false\nStartupNotify=false\nCategories=Utility;Graphics;\n"@
}

/// The `Exec=` line for the command `exec`.
pub open spec fn exec_line_for(exec: Seq<char>) -> Seq<char> {
    "Exec="@ + exec
}

/// The autostart entry that launches `exec` at login.
pub open spec fn desktop_entry(exec: Seq<char>) -> Seq<char> {
    desktop_header() + exec_line_for(exec) + desktop_footer()
}

/// The autostart entry that launches `exec` at login.
pub fn autostart_desktop_content(exec: &str) -> (s: String)
    ensures
        s@ == desktop_entry(exec@),
{
    let mut s = String::from_str(
        "[Desktop Entry]\nType=Application\nName=OLED Wallpaper\nComment=Start OLED Wallpaper as the desktop background at login\n",
    );
    s.append("Exec=");
    s.append(exec);
    s.append(
        "\nTerminal=false\nX-GNOME-Autostart-enabled=true\nNoDisplay=false\nStartupNotify=false\nCategories=Utility;Graphics;\n",
    );
    assert(s@ =~= desktop_entry(exec@));
    s
}

/// An entry whose text is `contents` is stale for the command `exec` when
/// none of its lines, trimmed, is the `Exec=` line for `exec`.
pub open spec fn entry_is_stale(contents: Seq<char>, exec: Seq<char>) -> bool {
    !has_trimmed_line(contents, exec_line_for(exec))
}

/// Whether an entry holding `contents` lacks the `Exec=` line for `exec`.
pub fn exec_line_missing(contents: &str, exec: &str) -> (b: bool)
    ensures
        b == entry_is_stale(contents@, exec@),
{
    let mut line = String::from_str("Exec=");
    line.append(exec);
    !contains_trimmed_line(contents, line.as_str())
}

/// What reading the autostart entry gave.
pub enum AutostartFile {
    /// No entry exists.
    Missing,
    /// An entry exists but could not be read as text.
    Unreadable,
    /// The entry's text.
    Contents(String),
}

/// The state of the autostart entry.
#[derive(Debug)]
pub struct AutostartInfo {
    pub path: String,
    /// The `Exec=` command the entry should hold.
    pub exec_line: String,
    pub file_exists: bool,
    pub exec_reachable: bool,
    /// The entry exists but holds another `Exec=` command.
    pub exec_stale: bool,
    pub via_flatpak: bool,
}

/// How to check that the autostart command can be launched.
pub enum ExecProbe {
    /// The command, trimmed, is an absolute path: check that it exists.
    AbsolutePath(String),
    /// Otherwise look the trimmed command up in the `PATH` directories.
    SearchPath(String),
}

/// How to check that the autostart command `exec_line` can be launched.
pub fn exec_probe(exec_line: &str) -> (p: ExecProbe)
    ensures
        match p {
            ExecProbe::AbsolutePath(b) => b@ == trim(exec_line@) && has_prefix(b@, "/"@),
            ExecProbe::SearchPath(b) => b@ == trim(exec_line@) && !has_prefix(b@, "/"@),
        },
{
    let bin = trim_str(exec_line);
    if starts_with(bin, "/") {
        ExecProbe::AbsolutePath(String::from_str(bin))
    } else {
        ExecProbe::SearchPath(String::from_str(bin))
    }
}

/// Assemble the state of the autostart entry at `path`, which should hold
/// `exec_line`. `file` is what reading the entry gave; `exec_found` is the
/// outcome of the `exec_probe` check, which only matters when the command
/// does not go through Flatpak.
pub fn autostart_info(
    path: String,
    exec_line: String,
    via_flatpak: bool,
    file: AutostartFile,
    exec_found: bool,
) -> (info: AutostartInfo)
    ensures
        info.path == path,
        info.exec_line == exec_line,
        info.via_flatpak == via_flatpak,
        info.file_exists == !(file is Missing),
        info.exec_stale == (match file {
            AutostartFile::Contents(c) => entry_is_stale(c@, exec_line@),
            _ => false,
        }),
        info.exec_reachable == (via_flatpak || exec_found),
{
    let file_exists = !matches!(file, AutostartFile::Missing);
    let exec_stale = match &file {
        AutostartFile::Contents(c) => exec_line_missing(c.as_str(), exec_line.as_str()),
        _ => false,
    };
    AutostartInfo {
        path,
        exec_line,
        file_exists,
        exec_reachable: via_flatpak || exec_found,
        exec_stale,
        via_flatpak,
    }
}

/// What to do next while healing a stale autostart entry.
#[derive(Debug, Clone, Copy, PartialEq, Eq, Structural)]
pub enum HealAction {
    /// Rewrite the entry with the current command, then report `Rewritten`.
    Rewrite,
    /// Healing is over; whether the entry was rewritten.
    Finish(bool),
}

/// What the caller observed for the healing step.
#[derive(Debug, Clone, Copy, PartialEq, Eq, Structural)]
pub enum HealEvent {
    /// The entry was inspected.
    Inspected { file_exists: bool, exec_stale: bool },
    /// The entry was rewritten, successfully or not.
    Rewritten(bool),
}

/// Heal a stale autostart entry: an existing entry with a stale `Exec=`
/// line is rewritten, and healing reports success exactly when that
/// rewrite succeeded. A missing or current entry is left alone.
pub fn heal_autostart_if_stale(event: HealEvent) -> (a: HealAction)
    ensures
        match event {
            HealEvent::Inspected { file_exists, exec_stale } => a == (if file_exists
                && exec_stale {
                HealAction::Rewrite
            } else {
                HealAction::Finish(false)
            }),
            HealEvent::Rewritten(ok) => a == HealAction::Finish(ok),
        },
{
    match event {
        HealEvent::Inspected { file_exists, exec_stale } => {
            if file_exists && exec_stale {
                HealAction::Rewrite
            } else {
                HealAction::Finish(false)
            }
        },
        HealEvent::Rewritten(ok) => HealAction::Finish(ok),
    }
}

} // verus!

verus! {

/// A freshly written autostart entry is never stale: its `Exec=` line is
/// found again, for any command without line breaks and without trailing
/// whitespace (which reading trims away).
pub proof fn lemma_fresh_entry_not_stale(exec: Seq<char>)
    requires
        !exec.contains('\n'),
        exec.len() > 0 ==> !is_ws(exec.last()),
    ensures
        !entry_is_stale(desktop_entry(exec), exec),
{
    reveal_strlit("Exec=");
    reveal_strlit("[Desktop Entry]\nType=Application\nName=OLED Wallpaper\nComment=Start OLED Wallpaper as the desktop background at login\n");
    reveal_strlit("\nTerminal=false\nX-GNOME-Autostart-enabled=true\nNoDisplay=false\nStartupNotify=false\nCategories=Utility;Graphics;\n");
    let h = desktop_header();
    let t = exec_line_for(exec);
    let f = desktop_footer();
    let b = t + f;
    assert(desktop_entry(exec) =~= h + b);
    let m = t.len() as int;
    assert(b[m] == '\n');
    assert forall|k: int| 0 <= k < m implies b[k] != '\n' by {
        assert(b[k] == t[k]);
        if k >= 5 {
            assert(t[k] == exec[k - 5]);
            assert(exec.contains(exec[k - 5]));
        }
    }
    crate::text::lemma_line_end_exact(b, 0, m);
    assert(b.subrange(0, m) =~= t);
    assert(t.last() != '\r') by {
        if exec.len() > 0 {
            assert(t.last() == exec.last());
        }
    }
    assert(line_at(b, 0) == t);
    assert(!is_ws(t[0]));
    assert(!is_ws(t.last())) by {
        if exec.len() > 0 {
            assert(t.last() == exec.last());
        }
    }
    crate::text::lemma_trim_identity(t);
    assert(crate::text::some_line_trims_to(b, 0, t));
    crate::text::lemma_lines_after_prefix(h, b, 0, t);
}

} // verus!

verus! {

// ─── The single-instance lock ────────────────────────────────────────────────

/// Whether the wallpaper runs, and the process id its lock file names.
#[derive(Debug, Clone, Copy, PartialEq, Eq, Structural)]
pub struct WallpaperStatus {
    pub running: bool,
    pub pid: Option<u32>,
}

/// The process id written in a lock file holding `contents`: the trimmed
/// text read as a `u32`.
pub open spec fn lock_pid(contents: Seq<char>) -> Option<u32> {
    match parse_unsigned(trim(contents), u32::MAX as nat) {
        Some(v) => Some(v as u32),
        None => None,
    }
}

/// The process id written in a lock file holding `contents`.
pub fn read_lock_pid(contents: &str) -> (pid: Option<u32>)
    ensures
        pid == lock_pid(contents@),
{
    parse_u32(trim_str(contents))
}

/// What a process writes into the lock file once it holds the lock: its
/// process id in decimal and a line break.
pub open spec fn pid_stamp_text(pid: u32) -> Seq<char> {
    decimal(pid as nat) + "\n"@
}

/// What a process writes into the lock file once it holds the lock.
pub fn pid_stamp(pid: u32) -> (s: String)
    ensures
        s@ == pid_stamp_text(pid),
{
    let mut s = String::new();
    push_decimal(&mut s, pid as u64);
    s.append("\n");
    assert(s@ =~= pid_stamp_text(pid));
    s
}

/// The lock file reads back the process id that stamped it.
pub proof fn lemma_pid_stamp_round_trip(pid: u32)
    ensures
        lock_pid(pid_stamp_text(pid)) == Some(pid),
{
    reveal_strlit("\n");
    let d = decimal(pid as nat);
    let s = pid_stamp_text(pid);
    lemma_decimal_digits(pid as nat);
    assert(s[0] == d[0]);
    lemma_trim_start_from(s, 0);
    assert(s.subrange(0, s.len() as int) =~= s);
    assert(s[s.len() - 1] == '\n');
    assert(s[d.len() - 1] == d.last());
    lemma_trim_end_to(s, d.len() as int);
    assert(s.subrange(0, d.len() as int) =~= d);
    assert(trim(s) == d);
    assert(crate::text::unsigned_body(d) == d);
}

/// What probing the lock file found.
pub enum LockProbe {
    /// There is no lock file.
    NoLockFile,
    /// Nobody held the lock: the probe took it (and must release it).
    Acquired,
    /// Another process holds the lock; the lock file's text, if readable.
    HeldElsewhere(Option<String>),
    /// The lock could not be probed.
    Failed,
}

/// The wallpaper runs exactly when another process holds the lock; its
/// process id is then the one its lock file names.
pub fn wallpaper_status(probe: &LockProbe) -> (st: WallpaperStatus)
    ensures
        st.running == (probe is HeldElsewhere),
        match probe {
            LockProbe::HeldElsewhere(Some(c)) => st.pid == lock_pid(c@),
            _ => st.pid is None,
        },
{
    match probe {
        LockProbe::HeldElsewhere(contents) => {
            let pid = match contents {
                Some(c) => read_lock_pid(c.as_str()),
                None => None,
            };
            WallpaperStatus { running: true, pid }
        },
        _ => WallpaperStatus { running: false, pid: None },
    }
}

/// Why the single-instance lock could not be taken.
#[derive(Debug)]
pub enum WallpaperLockError {
    /// Another instance holds the lock; the process id its lock file names.
    AlreadyRunning { pid: Option<u32> },
    /// The lock file could not be created, opened, locked or written.
    Io(std::io::Error),
}

/// The message shown for an instance that already runs.
pub open spec fn already_running_text(pid: Option<u32>) -> Seq<char> {
    match pid {
        Some(p) => "wallpaper is already running (pid "@ + decimal(p as nat) + ")"@,
        None => "wallpaper is already running"@,
    }
}

impl WallpaperLockError {
    /// The refusal for a lock held elsewhere, whose lock file holds
    /// `contents` if it could be read.
    pub fn already_running(contents: Option<&str>) -> (e: WallpaperLockError)
        ensures
            e matches WallpaperLockError::AlreadyRunning { pid } && pid == (match contents {
                Some(c) => lock_pid(c@),
                None => None,
            }),
    {
        let pid = match contents {
            Some(c) => read_lock_pid(c),
            None => None,
        };
        WallpaperLockError::AlreadyRunning { pid }
    }

    /// The message this error displays. For an I/O error it is the
    /// operating system's text.
    pub fn message(&self) -> (s: String)
        ensures
            self matches WallpaperLockError::AlreadyRunning { pid } ==> s@
                == already_running_text(*pid),
    {
        match self {
            WallpaperLockError::AlreadyRunning { pid: Some(p) } => {
                let mut s = String::from_str("wallpaper is already running (pid ");
                push_decimal(&mut s, *p as u64);
                s.append(")");
                s
            },
            WallpaperLockError::AlreadyRunning { pid: None } => String::from_str(
                "wallpaper is already running",
            ),
            WallpaperLockError::Io(e) => crate::error::io_error_text(e),
        }
    }
}

impl From<std::io::Error> for WallpaperLockError {
    fn from(value: std::io::Error) -> (e: WallpaperLockError) {
        WallpaperLockError::Io(value)
    }
}

impl vstd::std_specs::convert::FromSpecImpl<std::io::Error> for WallpaperLockError {
    open spec fn obeys_from_spec() -> bool {
        true
    }

    open spec fn from_spec(v: std::io::Error) -> WallpaperLockError {
        WallpaperLockError::Io(v)
    }
}

} // verus!

verus! {

// ─── Restarting the wallpaper ────────────────────────────────────────────────

/// Where a restart stands.
#[derive(Debug, Clone, Copy, PartialEq, Eq, Structural)]
pub enum RestartPhase {
    /// Nothing observed yet.
    Start,
    /// A running instance was found; the restart request is being written.
    Signalling,
    /// The running instance was asked to exit; waiting for it to let go of
    /// the lock.
    AwaitingExit,
    /// No instance holds the lock any more; a new one is being launched.
    Launching,
    /// The restart is over.
    Finished,
}

/// What the caller observed, in answer to the previous action.
pub enum RestartEvent {
    /// The lock was probed: whether an instance runs, and whether the
    /// five-second wait that began when the request was written is over.
    Status { running: bool, deadline_passed: bool },
    /// The restart request file was written, or why it could not be.
    SignalWritten(Option<String>),
    /// The new instance was spawned, or why it could not be.
    Launched(Option<String>),
}

/// What the caller does next.
#[derive(Debug)]
pub enum RestartAction {
    /// Probe the lock and report `Status`.
    CheckStatus,
    /// Write the restart request and report `SignalWritten`.
    SignalRestart,
    /// Sleep 100 ms, then probe the lock and report `Status`.
    WaitThenCheckStatus,
    /// Spawn the wallpaper binary and report `Launched`.
    Launch,
    /// Remove the restart request, then end with this error.
    ClearRequestAndFail(String),
    /// End with this outcome.
    Finish(Result<(), String>),
}

/// The next phase and what to do in it.
pub struct RestartStep {
    pub next: RestartPhase,
    pub action: RestartAction,
}

/// The event that answers the action taken in `phase`.
pub open spec fn event_fits(phase: RestartPhase, event: RestartEvent) -> bool {
    match phase {
        RestartPhase::Start => event is Status,
        RestartPhase::Signalling => event is SignalWritten,
        RestartPhase::AwaitingExit => event is Status,
        RestartPhase::Launching => event is Launched,
        RestartPhase::Finished => false,
    }
}

/// The error text for a failed step: its description, `: `, and the cause.
pub open spec fn failure_text(what: Seq<char>, cause: Seq<char>) -> Seq<char> {
    what + ": "@ + cause
}

fn failure(what: &str, cause: &str) -> (s: String)
    ensures
        s@ == failure_text(what@, cause@),
{
    let mut s = String::from_str(what);
    s.append(": ");
    s.append(cause);
    s
}

/// The restart handshake: a running instance is asked to exit through the
/// restart request; the new instance is launched only once no instance
/// holds the lock; if the old one still holds it when the five-second wait
/// is over, the request is withdrawn and the restart fails.
pub fn restart_wallpaper(phase: RestartPhase, event: RestartEvent) -> (step: RestartStep)
    requires
        event_fits(phase, event),
    ensures
        match (phase, event) {
            (RestartPhase::Start, RestartEvent::Status { running, .. }) => if running {
                step.next == RestartPhase::Signalling && step.action is SignalRestart
            } else {
                step.next == RestartPhase::Launching && step.action is Launch
            },
            (RestartPhase::Signalling, RestartEvent::SignalWritten(err)) => match err {
                None => step.next == RestartPhase::AwaitingExit && step.action is CheckStatus,
                Some(e) => {
                    &&& step.next == RestartPhase::Finished
                    &&& step.action matches RestartAction::Finish(Err(m)) && m@ == failure_text(
                        "Failed to signal restart"@,
                        e@,
                    )
                },
            },
            (RestartPhase::AwaitingExit, RestartEvent::Status { running, deadline_passed }) => if !running {
                step.next == RestartPhase::Launching && step.action is Launch
            } else if deadline_passed {
                &&& step.next == RestartPhase::Finished
                &&& step.action matches RestartAction::ClearRequestAndFail(m) && m@
                    == "Timed out waiting for the running wallpaper to exit"@
            } else {
                step.next == RestartPhase::AwaitingExit && step.action is WaitThenCheckStatus
            },
            (RestartPhase::Launching, RestartEvent::Launched(err)) => step.next
                == RestartPhase::Finished && match err {
                None => step.action matches RestartAction::Finish(Ok(())),
                Some(e) => step.action matches RestartAction::Finish(Err(m)) && m@ == failure_text(
                    "Failed to launch wallpaper"@,
                    e@,
                ),
            },
            _ => false,
        },
{
    match phase {
        RestartPhase::Start => match event {
            RestartEvent::Status { running, .. } => {
                if running {
                    RestartStep { next: RestartPhase::Signalling, action: RestartAction::SignalRestart }
                } else {
                    RestartStep { next: RestartPhase::Launching, action: RestartAction::Launch }
                }
            },
            _ => RestartStep { next: RestartPhase::Finished, action: RestartAction::CheckStatus },
        },
        RestartPhase::Signalling => match event {
            RestartEvent::SignalWritten(None) => RestartStep {
                next: RestartPhase::AwaitingExit,
                action: RestartAction::CheckStatus,
            },
            RestartEvent::SignalWritten(Some(e)) => RestartStep {
                next: RestartPhase::Finished,
                action: RestartAction::Finish(Err(failure("Failed to signal restart", e.as_str()))),
            },
            _ => RestartStep { next: RestartPhase::Finished, action: RestartAction::CheckStatus },
        },
        RestartPhase::AwaitingExit => match event {
            RestartEvent::Status { running, deadline_passed } => {
                if !running {
                    RestartStep { next: RestartPhase::Launching, action: RestartAction::Launch }
                } else if deadline_passed {
                    RestartStep {
                        next: RestartPhase::Finished,
                        action: RestartAction::ClearRequestAndFail(
                            String::from_str("Timed out waiting for the running wallpaper to exit"),
                        ),
                    }
                } else {
                    RestartStep {
                        next: RestartPhase::AwaitingExit,
                        action: RestartAction::WaitThenCheckStatus,
                    }
                }
            },
            _ => RestartStep { next: RestartPhase::Finished, action: RestartAction::CheckStatus },
        },
        RestartPhase::Launching => match event {
            RestartEvent::Launched(None) => RestartStep {
                next: RestartPhase::Finished,
                action: RestartAction::Finish(Ok(())),
            },
            RestartEvent::Launched(Some(e)) => RestartStep {
                next: RestartPhase::Finished,
                action: RestartAction::Finish(Err(failure("Failed to launch wallpaper", e.as_str()))),
            },
            _ => RestartStep { next: RestartPhase::Finished, action: RestartAction::CheckStatus },
        },
        RestartPhase::Finished => RestartStep {
            next: RestartPhase::Finished,
            action: RestartAction::CheckStatus,
        },
    }
}

} // verus!
