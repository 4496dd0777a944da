//! The remote-shell proxy supervisor: the argument list for the SSH client
//! subprocess, and the watch state machine that tracks the subprocess's two
//! output streams and its exit. The spawning and the byte-level reads happen
//! outside the library; this module decides what to run and guarantees that
//! no output line is dropped before the watch completes.

use vstd::prelude::*;

use crate::config::Config;
use crate::logging::{LogLevel, LogLine, LogLineView};
use crate::text::{spec_dec, u64_to_dec};

verus! {

/// Errors of the proxy supervisor: the subprocess could not be started or
/// reported a failure on exit.
#[derive(Debug)]
pub enum SshError {
    ProcessError(String),
    UnexpectedExit,
}

/// The argument list for the SSH client: no host-key pinning (the target is
/// ephemeral), verbose connection logs, no remote command, a dynamic
/// SOCKS-style forward on the configured port, and a connection to the
/// tunnel's local port.
pub open spec fn spec_socks_proxy_args(
    socks_port: u16,
    forwarded_ssh_port: u16,
    username: Seq<char>,
) -> Seq<Seq<char>> {
    seq![
        "-o"@,
        "StrictHostKeyChecking=no"@,
        "-v"@,
        "-N"@,
        "-D"@,
        spec_dec(socks_port as nat),
        "-p"@,
        spec_dec(forwarded_ssh_port as nat),
        username + "@127.0.0.1"@,
    ]
}

/// The local SOCKS port when the configuration does not set one.
pub open spec fn spec_socks_port_or_default(port: Option<u16>) -> u16 {
    match port {
        Some(p) => p,
        None => 1080,
    }
}

/// The remote-shell proxy service: holds the configuration snapshot it was
/// created with.
pub struct SshServiceImpl {
    config: Config,
}

impl SshServiceImpl {
    /// The configuration this service was created with.
    pub closed spec fn spec_config(&self) -> Config {
        self.config
    }

    /// Creates the service over a configuration snapshot.
    pub fn new(config: &Config) -> (r: Self)
        ensures
            r.spec_config()@ == config@,
    {
        SshServiceImpl { config: config.clone() }
    }

    /// The exact argument list for the SSH client subprocess that serves the
    /// SOCKS proxy over the tunnel's local port.
    pub fn socks_proxy_args(&self, forwarded_ssh_port: u16) -> (args: Vec<String>)
        requires
            self.spec_config()@.ssh_username is Some,
        ensures
            args.deep_view() == spec_socks_proxy_args(
                spec_socks_port_or_default(self.spec_config()@.local_socks_port),
                forwarded_ssh_port,
                self.spec_config()@.ssh_username.unwrap(),
            ),
    {
        let socks_port: u16 = match &self.config.local_socks_port {
            Some(p) => *p,
            None => 1080,
        };
        let username = self.config.ssh_username.as_ref().unwrap();
        let mut args: Vec<String> = Vec::new();
        args.push(String::from_str("-o"));
        args.push(String::from_str("StrictHostKeyChecking=no"));
        args.push(String::from_str("-v"));
        args.push(String::from_str("-N"));
        args.push(String::from_str("-D"));
        args.push(u64_to_dec(socks_port as u64));
        args.push(String::from_str("-p"));
        args.push(u64_to_dec(forwarded_ssh_port as u64));
        let mut target = username.clone();
        target.append("@127.0.0.1");
        args.push(target);
        proof {
            assert(args.deep_view() =~= spec_socks_proxy_args(
                spec_socks_port_or_default(self.spec_config()@.local_socks_port),
                forwarded_ssh_port,
                self.spec_config()@.ssh_username.unwrap(),
            ));
        }
        args
    }
}

/// One observation the watcher makes of the subprocess: a line on one of the
/// output streams, a stream reaching its end, or the exit status (true for
/// success).
pub enum ProxyEvent {
    StdoutLine(String),
    StderrLine(String),
    StdoutClosed,
    StderrClosed,
    Exited(bool),
}

/// Mathematical model of a [`ProxyWatch`].
#[verifier::ext_equal]
pub struct ProxyWatchView {
    pub stdout_open: bool,
    pub stderr_open: bool,
    pub exit_status: Option<bool>,
    pub log: Seq<LogLineView>,
}

impl ProxyWatchView {
    /// The watch may complete only here: the subprocess has exited and both
    /// output streams are drained to their end.
    pub open spec fn done(self) -> bool {
        &&& !self.stdout_open
        &&& !self.stderr_open
        &&& self.exit_status is Some
    }
}

/// The line an event contributes to the log: stdout lines at info level,
/// stderr lines at warn level, nothing otherwise.
pub open spec fn spec_logged_lines(e: ProxyEvent) -> Seq<LogLineView> {
    match e {
        ProxyEvent::StdoutLine(s) => seq![LogLineView { level: LogLevel::Info, text: s@ }],
        ProxyEvent::StderrLine(s) => seq![LogLineView { level: LogLevel::Warn, text: s@ }],
        _ => Seq::empty(),
    }
}

/// The watch state after observing one event.
pub open spec fn spec_watch_step(w: ProxyWatchView, e: ProxyEvent) -> ProxyWatchView {
    ProxyWatchView {
        stdout_open: w.stdout_open && !(e is StdoutClosed),
        stderr_open: w.stderr_open && !(e is StderrClosed),
        exit_status: match e {
            ProxyEvent::Exited(ok) => Some(ok),
            _ => w.exit_status,
        },
        log: w.log + spec_logged_lines(e),
    }
}

/// A fresh watch: both streams open, no exit observed, nothing logged.
pub open spec fn spec_watch_init() -> ProxyWatchView {
    ProxyWatchView { stdout_open: true, stderr_open: true, exit_status: None, log: Seq::empty() }
}

/// Supervises one subprocess: records every output line with its level and
/// tracks when both streams are drained and the exit status is known. The
/// surrounding process feeds it events as the concurrent reads produce them.
pub struct ProxyWatch {
    stdout_open: bool,
    stderr_open: bool,
    exit_status: Option<bool>,
    log: Vec<LogLine>,
}

impl View for ProxyWatch {
    type V = ProxyWatchView;

    closed spec fn view(&self) -> ProxyWatchView {
        ProxyWatchView {
            stdout_open: self.stdout_open,
            stderr_open: self.stderr_open,
            exit_status: self.exit_status,
            log: self.log.deep_view(),
        }
    }
}

impl ProxyWatch {
    /// A fresh watch for a newly spawned subprocess.
    pub fn new() -> (r: Self)
        ensures
            r@ == spec_watch_init(),
    {
        let r = ProxyWatch { stdout_open: true, stderr_open: true, exit_status: None, log: Vec::new() };
        proof {
            assert(r@ =~= spec_watch_init());
        }
        r
    }

    /// Observes one event, logging any output line it carries.
    pub fn on_event(&mut self, e: ProxyEvent)
        ensures
            final(self)@ == spec_watch_step(old(self)@, e),
    {
        let ghost w0 = self@;
        match e {
            ProxyEvent::StdoutLine(s) => {
                self.log.push(LogLine { level: LogLevel::Info, text: s });
            },
            ProxyEvent::StderrLine(s) => {
                self.log.push(LogLine { level: LogLevel::Warn, text: s });
            },
            ProxyEvent::StdoutClosed => {
                self.stdout_open = false;
            },
            ProxyEvent::StderrClosed => {
                self.stderr_open = false;
            },
            ProxyEvent::Exited(ok) => {
                self.exit_status = Some(ok);
            },
        }
        proof {
            assert(self@.log =~= spec_watch_step(w0, e).log);
            assert(self@ =~= spec_watch_step(w0, e));
        }
    }

    /// Whether the watch may complete: exit observed and both streams
    /// drained, so no log line can still be in flight.
    pub fn is_done(&self) -> (r: bool)
        ensures
            r == self@.done(),
    {
        !self.stdout_open && !self.stderr_open && self.exit_status.is_some()
    }

    /// Every line logged so far, in order of observation.
    pub fn log_lines(&self) -> (r: &Vec<LogLine>)
        ensures
            r.deep_view() == self@.log,
    {
        &self.log
    }

    /// The watch's verdict, once it is done: success exactly when the
    /// subprocess exited with status zero; any other exit is unexpected.
    pub fn outcome(&self) -> (r: Result<(), SshError>)
        requires
            self@.done(),
        ensures
            r is Ok <==> self@.exit_status == Some(true),
            r is Err ==> r == Result::<(), SshError>::Err(SshError::UnexpectedExit),
    {
        match &self.exit_status {
            Some(true) => Ok(()),
            _ => Err(SshError::UnexpectedExit),
        }
    }
}

/// The watch state after a whole sequence of events, in order.
pub open spec fn spec_watch_run(w: ProxyWatchView, evs: Seq<ProxyEvent>) -> ProxyWatchView
    decreases evs.len(),
{
    if evs.len() == 0 {
        w
    } else {
        spec_watch_run(spec_watch_step(w, evs[0]), evs.subrange(1, evs.len() as int))
    }
}

/// Every line the events carry, in order.
pub open spec fn spec_all_logged_lines(evs: Seq<ProxyEvent>) -> Seq<LogLineView>
    decreases evs.len(),
{
    if evs.len() == 0 {
        Seq::empty()
    } else {
        spec_logged_lines(evs[0]) + spec_all_logged_lines(evs.subrange(1, evs.len() as int))
    }
}

/// Running the watch never loses a line: the log grows by exactly the lines
/// the events carry, in order.
proof fn lemma_watch_run_log(w: ProxyWatchView, evs: Seq<ProxyEvent>)
    ensures
        spec_watch_run(w, evs).log == w.log + spec_all_logged_lines(evs),
    decreases evs.len(),
{
    if evs.len() == 0 {
        assert(spec_watch_run(w, evs).log =~= w.log + spec_all_logged_lines(evs));
    } else {
        let rest = evs.subrange(1, evs.len() as int);
        lemma_watch_run_log(spec_watch_step(w, evs[0]), rest);
        assert(spec_watch_step(w, evs[0]).log + spec_all_logged_lines(rest) =~= w.log
            + spec_all_logged_lines(evs));
    }
}

/// Output-drain completeness: after any sequence of events, the watch has
/// logged exactly the lines the subprocess produced, in order — so every
/// line written before exit is observed by the sink before the watch
/// completes.
pub proof fn lemma_output_drain_complete(evs: Seq<ProxyEvent>)
    ensures
        spec_watch_run(spec_watch_init(), evs).log == spec_all_logged_lines(evs),
{
    lemma_watch_run_log(spec_watch_init(), evs);
    assert(spec_watch_init().log + spec_all_logged_lines(evs) =~= spec_all_logged_lines(evs));
}

} // verus!
