use vstd::prelude::*;

use crate::command::{command_byte, Command, CommandSend};
use crate::config::{clone_opt_string, Config, Entrypoint};
use crate::form::FormManager;
use crate::result::{OpenconnectError, OpenconnectResult};
use vstd::string::StringExecFns;

verus! {

/// Connection status of one session.
#[derive(Debug)]
pub enum Status {
    /// The session exists but no connection attempt has started.
    Initialized,
    /// A stop was requested and the run loop has not exited yet.
    Disconnecting,
    /// The run loop has exited and the command pipe is closed.
    Disconnected,
    /// A connection attempt is in progress; the string names its stage.
    Connecting(String),
    /// The handshake is done and the run loop is active.
    Connected,
    /// A connection attempt or the session itself failed; a later connect
    /// attempt may retry from here.
    Error(OpenconnectError),
}

impl Status {
    /// Field-by-field copy, fully specified.
    pub fn duplicate(&self) -> (r: Status)
        ensures
            r == *self,
    {
        match self {
            Status::Initialized => Status::Initialized,
            Status::Disconnecting => Status::Disconnecting,
            Status::Disconnected => Status::Disconnected,
            Status::Connecting(s) => Status::Connecting(s.clone()),
            Status::Connected => Status::Connected,
            Status::Error(e) => Status::Error(e.duplicate()),
        }
    }

    /// The status word shown to IPC clients.
    pub fn status_string(&self) -> (r: String)
        ensures
            r@ == spec_status_string(*self),
    {
        match self {
            Status::Initialized => "Initialized".to_string(),
            Status::Disconnecting => "Disconnecting".to_string(),
            Status::Disconnected => "Disconnected".to_string(),
            Status::Connecting(_) => "Connecting".to_string(),
            Status::Connected => "Connected".to_string(),
            Status::Error(_) => "Error".to_string(),
        }
    }
}

/// The status word shown to IPC clients for each status.
pub open spec fn spec_status_string(s: Status) -> Seq<char> {
    match s {
        Status::Initialized => "Initialized"@,
        Status::Disconnecting => "Disconnecting"@,
        Status::Disconnected => "Disconnected"@,
        Status::Connecting(_) => "Connecting"@,
        Status::Connected => "Connected"@,
        Status::Error(_) => "Error"@,
    }
}

/// A connection attempt may start only from these statuses: a fresh
/// session, a fully stopped one, or one that failed.
pub open spec fn can_connect(s: Status) -> bool {
    s is Initialized || s is Disconnected || s is Error
}

/// The session's status transition relation. Every status change a session
/// method makes takes one of these steps.
pub open spec fn status_step(pre: Status, post: Status) -> bool {
    ||| (can_connect(pre) && post is Connecting)
    ||| (pre is Connecting && (post is Connecting || post is Connected))
    ||| (pre is Connected && post is Disconnecting)
    ||| ((pre is Connected || pre is Disconnecting) && post is Disconnected)
    ||| (!(pre is Disconnected) && !(pre is Error) && post is Error)
}

/// From `Disconnecting`, no step re-enters `Connecting` or `Connected`: a
/// session that was asked to stop can only finish stopping or fail.
pub proof fn lemma_disconnecting_never_reconnects(pre: Status, post: Status)
    requires
        pre is Disconnecting,
        status_step(pre, post),
    ensures
        !(post is Connecting),
        !(post is Connected),
{
}

/// A stop of a connected session runs to completion: `Connected` steps to
/// `Disconnecting` on the request ([`VpnClient::disconnect`]), and the
/// next step that is not a failure is `Disconnected` — the machine never
/// turns back toward `Connecting` on the way down.
pub proof fn lemma_stop_runs_to_disconnected(s1: Status, s2: Status, s3: Status)
    requires
        s1 is Connected,
        status_step(s1, s2),
        s2 is Disconnecting,
        status_step(s2, s3),
        !(s3 is Error),
    ensures
        s3 is Disconnected,
{
}

/// The fixed stages one connection attempt announces while it runs, in
/// the order the engine is driven through them; obtaining the cookie has
/// its own label carrying the resolved host (see
/// [`VpnClient::obtain_cookie_stage`]).
#[derive(Debug, Clone, Copy, PartialEq, Eq, Structural)]
pub enum ConnectStage {
    SystemPipe,
    ParseUrl,
    CstpConnection,
}

/// The label IPC clients observe for each fixed connect stage.
pub open spec fn spec_stage_label(stage: ConnectStage) -> Seq<char> {
    match stage {
        ConnectStage::SystemPipe => "Setting up system pipe"@,
        ConnectStage::ParseUrl => "Parsing URL"@,
        ConnectStage::CstpConnection => "Make CSTP connection"@,
    }
}

impl ConnectStage {
    pub fn label(&self) -> (r: String)
        ensures
            r@ == spec_stage_label(*self),
    {
        match *self {
            ConnectStage::SystemPipe => "Setting up system pipe".to_string(),
            ConnectStage::ParseUrl => "Parsing URL".to_string(),
            ConnectStage::CstpConnection => "Make CSTP connection".to_string(),
        }
    }
}

/// Statistics the engine reports for a live tunnel.
#[derive(Debug, Clone, Copy, PartialEq, Eq, Structural)]
pub struct Stats {
    pub rx_bytes: u64,
    pub tx_bytes: u64,
    pub rx_pkts: u64,
    pub tx_pkts: u64,
}

/// One accepted untrusted certificate: its fingerprint and the peer it was
/// accepted for.
#[derive(Debug)]
pub struct AcceptedCert {
    pub fingerprint: String,
    pub host: Option<String>,
    pub port: i32,
}

/// Whether a cached acceptance covers the peer `(fingerprint, host, port)`.
/// A cache entry without a host matches any host, and port zero on the peer
/// side matches any cached port.
pub open spec fn cert_matches(
    cert: AcceptedCert,
    fingerprint: Seq<char>,
    host: Option<String>,
    port: i32,
) -> bool {
    &&& cert.fingerprint@ == fingerprint
    &&& match host {
        None => true,
        Some(h) => cert.host matches Some(ch) && ch@ == h@,
    }
    &&& (port == 0 || cert.port == port)
}

/// One managed VPN session: the state machine wrapping one engine handle.
///
/// The engine itself runs outside this library; the session holds the
/// decision state (status, entrypoint, cancellation descriptor, resolver
/// and certificate cache) and every transition is made through the methods
/// below, which each take one step of [`status_step`].
#[derive(Debug)]
pub struct VpnClient {
    pub config: Config,
    pub status: Status,
    pub entrypoint: Option<Entrypoint>,
    pub cmd_fd: Option<i32>,
    pub hostname: Option<String>,
    pub form_manager: FormManager,
    pub peer_certs: Vec<AcceptedCert>,
}

impl VpnClient {
    /// The cancellation descriptor, when present, is a valid descriptor
    /// number.
    pub open spec fn wf(&self) -> bool {
        self.cmd_fd matches Some(fd) ==> fd >= 0
    }

    /// A fresh session over `config`: initialized, with no entrypoint, no
    /// cancellation descriptor, and an empty resolver and certificate
    /// cache.
    pub fn new(config: Config) -> (r: Self)
        ensures
            r.wf(),
            r.status is Initialized,
            r.entrypoint is None,
            r.cmd_fd is None,
            r.hostname is None,
            r.form_manager.empty_form_rounds == 0,
            r.form_manager.saved_form_fields@.len() == 0,
            r.peer_certs@.len() == 0,
            r.config == config,
    {
        VpnClient {
            config,
            status: Status::Initialized,
            entrypoint: None,
            cmd_fd: None,
            hostname: None,
            form_manager: FormManager::new(),
            peer_certs: Vec::new(),
        }
    }

    pub fn get_status(&self) -> (r: Status)
        ensures
            r == self.status,
    {
        self.status.duplicate()
    }

    pub fn get_server_name(&self) -> (r: Option<String>)
        ensures
            r == match self.entrypoint {
                Some(e) => e.name,
                None => None::<String>,
            },
    {
        match &self.entrypoint {
            Some(e) => clone_opt_string(&e.name),
            None => None,
        }
    }

    pub fn get_server_url(&self) -> (r: Option<String>)
        ensures
            r == match self.entrypoint {
                Some(e) => Some(e.server),
                None => None::<String>,
            },
    {
        match &self.entrypoint {
            Some(e) => Some(e.server.clone()),
            None => None,
        }
    }

    pub fn get_hostname(&self) -> (r: Option<String>)
        ensures
            r == self.hostname,
    {
        clone_opt_string(&self.hostname)
    }

    /// Records the host name the engine resolved for the current attempt.
    pub fn set_hostname(&mut self, hostname: Option<String>)
        ensures
            *final(self) == (VpnClient { hostname: final(self).hostname, ..*old(self) }),
            final(self).hostname == hostname,
    {
        self.hostname = hostname;
    }

    /// Starts a connection attempt: allowed only from `Initialized`,
    /// `Disconnected` or `Error`. On success the entrypoint is stored, the
    /// resolver is reset and the status enters the first connecting stage;
    /// in any other state nothing changes and the call fails.
    pub fn begin_connect(&mut self, entrypoint: Entrypoint) -> (r: OpenconnectResult<()>)
        ensures
            r is Ok <==> can_connect(old(self).status),
            !can_connect(old(self).status) ==> *final(self) == *old(self) && (r matches Err(e)
                && e is OtherError),
            r is Ok ==> {
                &&& final(self).status matches Status::Connecting(s) && s@
                    == "Initializing connection"@
                &&& final(self).entrypoint == Some(entrypoint)
                &&& final(self).form_manager.empty_form_rounds == 0
                &&& final(self).form_manager.saved_form_fields@.len() == 0
                &&& final(self).config == old(self).config
                &&& final(self).cmd_fd == old(self).cmd_fd
                &&& final(self).hostname == old(self).hostname
                &&& final(self).peer_certs == old(self).peer_certs
                &&& status_step(old(self).status, final(self).status)
            },
            final(self).wf() == old(self).wf(),
    {
        let allowed = match self.status {
            Status::Initialized => true,
            Status::Disconnected => true,
            Status::Error(_) => true,
            _ => false,
        };
        if !allowed {
            return Err(
                OpenconnectError::OtherError(
                    "connect is only allowed from an idle or failed session".to_string(),
                ),
            );
        }
        self.form_manager.reset();
        self.entrypoint = Some(entrypoint);
        self.status = Status::Connecting("Initializing connection".to_string());
        Ok(())
    }

    /// Moves the attempt to the named stage.
    pub fn advance_to(&mut self, stage: ConnectStage)
        requires
            old(self).status is Connecting,
        ensures
            *final(self) == (VpnClient { status: final(self).status, ..*old(self) }),
            final(self).status matches Status::Connecting(s) && s@ == spec_stage_label(stage),
            status_step(old(self).status, final(self).status),
    {
        let label = stage.label();
        self.advance_stage(label.as_str());
    }

    /// Moves the attempt to its next stage while connecting; the stage
    /// string is what IPC clients observe.
    pub fn advance_stage(&mut self, stage: &str)
        requires
            old(self).status is Connecting,
        ensures
            *final(self) == (VpnClient { status: final(self).status, ..*old(self) }),
            final(self).status matches Status::Connecting(s) && s@ == stage@,
            status_step(old(self).status, final(self).status),
    {
        self.status = Status::Connecting(stage.to_string());
    }

    /// The stage label for obtaining a cookie from the resolved host.
    pub fn obtain_cookie_stage(hostname: &Option<String>) -> (r: String)
        ensures
            r@ == "Obtaining cookie from: "@ + match *hostname {
                Some(h) => h@,
                None => ""@,
            },
    {
        let prefix = "Obtaining cookie from: ".to_string();
        match hostname {
            Some(h) => prefix.concat(h.as_str()),
            None => {
                proof {
                    reveal_strlit("");
                    assert(prefix@ + ""@ =~= prefix@);
                }
                prefix
            },
        }
    }

    /// Records the command descriptor the engine opened for this attempt.
    /// A negative descriptor is a failure to set up the pipe: the channel
    /// stays absent and the error carries the engine's return value.
    pub fn on_cmd_pipe(&mut self, cmd_fd: i32) -> (r: OpenconnectResult<()>)
        ensures
            *final(self) == (VpnClient { cmd_fd: final(self).cmd_fd, ..*old(self) }),
            final(self).wf(),
            r is Ok <==> cmd_fd >= 0,
            cmd_fd >= 0 ==> final(self).cmd_fd == Some(cmd_fd),
            cmd_fd < 0 ==> final(self).cmd_fd is None && r == Err::<(), OpenconnectError>(
                OpenconnectError::CmdPipeError(cmd_fd),
            ),
    {
        if cmd_fd < 0 {
            self.cmd_fd = None;
            return Err(OpenconnectError::CmdPipeError(cmd_fd));
        }
        self.cmd_fd = Some(cmd_fd);
        Ok(())
    }

    /// Marks the attempt as failed. The session keeps its other state; a
    /// later connect attempt may retry.
    pub fn emit_error(&mut self, error: OpenconnectError)
        requires
            !(old(self).status is Disconnected),
            !(old(self).status is Error),
        ensures
            *final(self) == (VpnClient { status: final(self).status, ..*old(self) }),
            final(self).status == Status::Error(error),
            status_step(old(self).status, final(self).status),
    {
        self.status = Status::Error(error);
    }

    /// Marks the handshake as done: the session is connected.
    pub fn complete_connect(&mut self)
        requires
            old(self).status is Connecting,
        ensures
            *final(self) == (VpnClient { status: final(self).status, ..*old(self) }),
            final(self).status is Connected,
            status_step(old(self).status, final(self).status),
    {
        self.status = Status::Connected;
    }

    /// Hands one command to the engine's run loop: returns the byte write
    /// the caller must perform on the command descriptor, or `None` when no
    /// descriptor is present (then nothing changes — sending without a
    /// channel is a no-op, never an error). Sending `Cancel` invalidates
    /// the descriptor, so a second cancellation finds it absent and
    /// also no-ops.
    pub fn send_command(&mut self, cmd: Command) -> (r: Option<CommandSend>)
        ensures
            old(self).cmd_fd is None ==> r is None && *final(self) == *old(self),
            old(self).cmd_fd matches Some(fd) ==> {
                &&& r == Some(CommandSend { fd, byte: command_byte(cmd) })
                &&& final(self).cmd_fd == if cmd is Cancel {
                    None::<i32>
                } else {
                    Some(fd)
                }
                &&& *final(self) == (VpnClient { cmd_fd: final(self).cmd_fd, ..*old(self) })
            },
            old(self).wf() ==> final(self).wf(),
    {
        match self.cmd_fd {
            None => None,
            Some(fd) => {
                let byte = cmd.to_byte();
                if let Command::Cancel = cmd {
                    self.cmd_fd = None;
                }
                Some(CommandSend { fd, byte })
            },
        }
    }

    /// Requests a stop. From any status but `Connected` this is a no-op:
    /// nothing changes and nothing is sent. From `Connected` the status
    /// becomes `Disconnecting`, `Cancel` is handed to the run loop and the
    /// command descriptor is invalidated; the `Disconnected` status is
    /// emitted later by the worker when the run loop exits.
    pub fn disconnect(&mut self) -> (r: Option<CommandSend>)
        ensures
            !(old(self).status is Connected) ==> r is None && *final(self) == *old(self),
            old(self).status is Connected ==> {
                &&& final(self).status is Disconnecting
                &&& final(self).cmd_fd is None
                &&& (old(self).cmd_fd matches Some(fd) ==> r == Some(
                    CommandSend { fd, byte: command_byte(Command::Cancel) },
                ))
                &&& (old(self).cmd_fd is None ==> r is None)
                &&& *final(self) == (VpnClient {
                    status: final(self).status,
                    cmd_fd: final(self).cmd_fd,
                    ..*old(self)
                })
                &&& status_step(old(self).status, final(self).status)
            },
            old(self).wf() ==> final(self).wf(),
    {
        match self.status {
            Status::Connected => {},
            _ => {
                return None;
            },
        }
        self.status = Status::Disconnecting;
        self.send_command(Command::Cancel)
    }

    /// Records that the worker's run loop has exited: the session is
    /// disconnected and the command pipe is closed. The result tells the
    /// worker whether to clear the engine's SSL and cookie state before
    /// any later reconnect, as the configuration chose.
    pub fn on_loop_exit(&mut self) -> (r: bool)
        requires
            old(self).status is Connected || old(self).status is Disconnecting,
        ensures
            *final(self) == (VpnClient {
                status: final(self).status,
                cmd_fd: final(self).cmd_fd,
                ..*old(self)
            }),
            final(self).status is Disconnected,
            final(self).cmd_fd is None,
            status_step(old(self).status, final(self).status),
            final(self).wf(),
            r == old(self).config.reset_ssl_on_disconnect,
    {
        self.cmd_fd = None;
        self.status = Status::Disconnected;
        self.config.reset_ssl_on_disconnect
    }

    /// The resolver's answer for a text input field: the entrypoint's
    /// username for a username field, nothing otherwise.
    pub fn handle_text_input(&self, field_name: &str) -> (r: Option<String>)
        ensures
            r == match self.entrypoint {
                Some(e) => if crate::form::is_username_field(field_name@) {
                    e.username
                } else {
                    None::<String>
                },
                None => None::<String>,
            },
    {
        match &self.entrypoint {
            Some(e) => {
                if crate::str_eq(field_name, "username") || crate::str_eq(field_name, "user")
                    || crate::str_eq(field_name, "uname") {
                    clone_opt_string(&e.username)
                } else {
                    None
                }
            },
            None => None,
        }
    }

    /// The resolver's answer for a password field: the entrypoint's
    /// password, if any.
    pub fn handle_password_input(&self) -> (r: Option<String>)
        ensures
            r == match self.entrypoint {
                Some(e) => e.password,
                None => None::<String>,
            },
    {
        match &self.entrypoint {
            Some(e) => clone_opt_string(&e.password),
            None => None,
        }
    }

    /// The entrypoint's static policy on untrusted certificates; with no
    /// entrypoint nothing is accepted. An interactive confirmation, when
    /// the embedder offers one, is layered on top of this by the caller.
    pub fn handle_accept_insecure_cert(&self) -> (r: bool)
        ensures
            r == match self.entrypoint {
                Some(e) => e.accept_insecure_cert,
                None => false,
            },
    {
        match &self.entrypoint {
            Some(e) => e.accept_insecure_cert,
            None => false,
        }
    }

    /// Whether a previously accepted certificate covers this peer, so the
    /// same untrusted certificate is not re-prompted within the session.
    pub fn is_cert_accepted(&self, fingerprint: &str, host: &Option<String>, port: i32) -> (r:
        bool)
        ensures
            r == exists|i: int|
                0 <= i < self.peer_certs@.len() && cert_matches(
                    self.peer_certs@[i],
                    fingerprint@,
                    *host,
                    port,
                ),
    {
        let n = self.peer_certs.len();
        let mut i: usize = 0;
        while i < n
            invariant
                n == self.peer_certs@.len(),
                0 <= i <= n,
                forall|j: int|
                    0 <= j < i ==> !cert_matches(self.peer_certs@[j], fingerprint@, *host, port),
            decreases n - i,
        {
            let cert = &self.peer_certs[i];
            let host_ok = match (host, &cert.host) {
                (None, _) => true,
                (Some(h), Some(ch)) => crate::str_eq(h.as_str(), ch.as_str()),
                (Some(_), None) => false,
            };
            let port_ok = port == 0 || cert.port == port;
            if host_ok && port_ok && crate::str_eq(cert.fingerprint.as_str(), fingerprint) {
                proof {
                    assert(cert_matches(self.peer_certs@[i as int], fingerprint@, *host, port));
                }
                return true;
            }
            i = i + 1;
        }
        false
    }

    /// One validation round for an untrusted peer certificate, without the
    /// interactive fallback: a cached acceptance or the entrypoint's
    /// static policy accepts it, and a policy acceptance is cached so the
    /// same certificate is not re-examined within the session. When this
    /// returns false the embedder may still consult an interactive
    /// callback and record a yes with [`VpnClient::remember_cert`].
    pub fn check_peer_cert(&mut self, fingerprint: String, host: Option<String>, port: i32) -> (r:
        bool)
        ensures
            ({
                let cached = exists|i: int|
                    0 <= i < old(self).peer_certs@.len() && cert_matches(
                        old(self).peer_certs@[i],
                        fingerprint@,
                        host,
                        port,
                    );
                let policy = match old(self).entrypoint {
                    Some(e) => e.accept_insecure_cert,
                    None => false,
                };
                &&& r == (cached || policy)
                &&& (cached ==> *final(self) == *old(self))
                &&& (!cached && policy ==> *final(self) == (VpnClient {
                    peer_certs: final(self).peer_certs,
                    ..*old(self)
                }) && final(self).peer_certs@ == old(self).peer_certs@.push(
                    AcceptedCert { fingerprint, host, port },
                ))
                &&& (!r ==> *final(self) == *old(self))
            }),
    {
        if self.is_cert_accepted(fingerprint.as_str(), &host, port) {
            return true;
        }
        if self.handle_accept_insecure_cert() {
            self.remember_cert(fingerprint, host, port);
            return true;
        }
        false
    }

    /// Remembers an accepted certificate for this peer.
    pub fn remember_cert(&mut self, fingerprint: String, host: Option<String>, port: i32)
        ensures
            *final(self) == (VpnClient { peer_certs: final(self).peer_certs, ..*old(self) }),
            final(self).peer_certs@ == old(self).peer_certs@.push(
                AcceptedCert { fingerprint, host, port },
            ),
    {
        self.peer_certs.push(AcceptedCert { fingerprint, host, port });
    }
}

} // verus!
