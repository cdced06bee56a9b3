use vstd::prelude::*;

use crate::protocols::{get_anyconnect_protocol, Protocol};
use crate::result::{OpenconnectError, OpenconnectResult};

verus! {

/// Engine verbosity, ordered from errors only up to full tracing.
#[derive(Debug, Clone, Copy, PartialEq, Eq, Structural)]
pub enum LogLevel {
    Error,
    Info,
    Debug,
    Trace,
}

impl LogLevel {
    /// The numeric level the engine expects for this verbosity.
    pub fn level_value(&self) -> (r: i32)
        ensures
            r == match *self {
                LogLevel::Error => 0i32,
                LogLevel::Info => 1i32,
                LogLevel::Debug => 2i32,
                LogLevel::Trace => 3i32,
            },
    {
        match *self {
            LogLevel::Error => 0,
            LogLevel::Info => 1,
            LogLevel::Debug => 2,
            LogLevel::Trace => 3,
        }
    }
}

/// Immutable per-session options: tunnel setup script, optional HTTP
/// proxy, engine verbosity, and whether the engine's SSL and cookie state
/// is reset once the run loop exits (a deliberate choice, off unless
/// asked for).
#[derive(Debug)]
pub struct Config {
    pub vpncscript: Option<String>,
    pub http_proxy: Option<String>,
    pub loglevel: LogLevel,
    pub reset_ssl_on_disconnect: bool,
}

/// Copy of an optional string, fully specified.
pub(crate) fn clone_opt_string(o: &Option<String>) -> (r: Option<String>)
    ensures
        r == *o,
{
    match o {
        Option::None => Option::None,
        Option::Some(s) => Option::Some(s.clone()),
    }
}

/// Builder for [`Config`]; unset options fall back to defaults at `build`.
pub struct ConfigBuilder {
    pub vpncscript: Option<String>,
    pub http_proxy: Option<String>,
    pub loglevel: Option<LogLevel>,
    pub reset_ssl_on_disconnect: bool,
}

impl ConfigBuilder {
    pub fn new() -> (r: Self)
        ensures
            r.vpncscript is None,
            r.http_proxy is None,
            r.loglevel is None,
            r.reset_ssl_on_disconnect == false,
    {
        ConfigBuilder {
            vpncscript: None,
            http_proxy: None,
            loglevel: None,
            reset_ssl_on_disconnect: false,
        }
    }

    pub fn vpncscript(self, vpncscript: &str) -> (r: Self)
        ensures
            r.vpncscript matches Some(v) && v@ == vpncscript@,
            r.http_proxy == self.http_proxy,
            r.loglevel == self.loglevel,
            r.reset_ssl_on_disconnect == self.reset_ssl_on_disconnect,
    {
        ConfigBuilder { vpncscript: Some(vpncscript.to_string()), ..self }
    }

    pub fn http_proxy(self, http_proxy: &str) -> (r: Self)
        ensures
            r.http_proxy matches Some(v) && v@ == http_proxy@,
            r.vpncscript == self.vpncscript,
            r.loglevel == self.loglevel,
            r.reset_ssl_on_disconnect == self.reset_ssl_on_disconnect,
    {
        ConfigBuilder { http_proxy: Some(http_proxy.to_string()), ..self }
    }

    pub fn loglevel(self, loglevel: LogLevel) -> (r: Self)
        ensures
            r.loglevel == Some(loglevel),
            r.vpncscript == self.vpncscript,
            r.http_proxy == self.http_proxy,
            r.reset_ssl_on_disconnect == self.reset_ssl_on_disconnect,
    {
        ConfigBuilder { loglevel: Some(loglevel), ..self }
    }

    /// Chooses whether the engine's SSL and cookie state is cleared when a
    /// run loop exits, before any later reconnect.
    pub fn reset_ssl_on_disconnect(self, reset_ssl_on_disconnect: bool) -> (r: Self)
        ensures
            r.reset_ssl_on_disconnect == reset_ssl_on_disconnect,
            r.vpncscript == self.vpncscript,
            r.http_proxy == self.http_proxy,
            r.loglevel == self.loglevel,
    {
        ConfigBuilder { reset_ssl_on_disconnect, ..self }
    }

    /// Building a `Config` cannot fail; missing verbosity falls back to
    /// [`LogLevel::Info`].
    pub fn build(&self) -> (r: OpenconnectResult<Config>)
        ensures
            r matches Ok(c)
                && c.vpncscript == self.vpncscript
                && c.http_proxy == self.http_proxy
                && c.reset_ssl_on_disconnect == self.reset_ssl_on_disconnect
                && c.loglevel == (if self.loglevel is Some {
                    self.loglevel.unwrap()
                } else {
                    LogLevel::Info
                }),
    {
        Ok(Config {
            http_proxy: clone_opt_string(&self.http_proxy),
            vpncscript: clone_opt_string(&self.vpncscript),
            loglevel: match self.loglevel {
                Some(l) => l,
                None => LogLevel::Info,
            },
            reset_ssl_on_disconnect: self.reset_ssl_on_disconnect,
        })
    }
}

impl Config {
    pub fn builder() -> (r: ConfigBuilder)
        ensures
            r.vpncscript is None,
            r.http_proxy is None,
            r.loglevel is None,
            r.reset_ssl_on_disconnect == false,
    {
        ConfigBuilder::new()
    }
}

impl Default for ConfigBuilder {
    fn default() -> (r: Self)
        ensures
            r.vpncscript is None,
            r.http_proxy is None,
            r.loglevel is None,
            r.reset_ssl_on_disconnect == false,
    {
        ConfigBuilder::new()
    }
}

/// The parameters of one connection attempt: where to connect, how to
/// authenticate, and which policies apply.
#[derive(Debug)]
pub struct Entrypoint {
    pub name: Option<String>,
    pub server: String,
    pub username: Option<String>,
    pub password: Option<String>,
    pub protocol: Protocol,
    pub cookie: Option<String>,
    pub enable_udp: bool,
    pub accept_insecure_cert: bool,
}

impl Entrypoint {
    /// Field-by-field copy, fully specified.
    pub fn duplicate(&self) -> (r: Entrypoint)
        ensures
            r == *self,
    {
        Entrypoint {
            name: clone_opt_string(&self.name),
            server: self.server.clone(),
            username: clone_opt_string(&self.username),
            password: clone_opt_string(&self.password),
            protocol: self.protocol.duplicate(),
            cookie: clone_opt_string(&self.cookie),
            enable_udp: self.enable_udp,
            accept_insecure_cert: self.accept_insecure_cert,
        }
    }
}

/// Builder for [`Entrypoint`]. `server` is the one required field; the
/// protocol defaults to AnyConnect and UDP transport defaults to enabled.
pub struct EntrypointBuilder {
    pub name: Option<String>,
    pub server: Option<String>,
    pub username: Option<String>,
    pub password: Option<String>,
    pub protocol: Option<Protocol>,
    pub cookie: Option<String>,
    pub enable_udp: bool,
    pub accept_insecure_cert: Option<bool>,
}

impl EntrypointBuilder {
    pub fn new() -> (r: Self)
        ensures
            r.name is None,
            r.server is None,
            r.username is None,
            r.password is None,
            r.protocol is None,
            r.cookie is None,
            r.enable_udp == true,
            r.accept_insecure_cert is None,
    {
        EntrypointBuilder {
            name: None,
            server: None,
            username: None,
            password: None,
            protocol: None,
            cookie: None,
            enable_udp: true,
            accept_insecure_cert: None,
        }
    }

    pub fn name(self, name: &str) -> (r: Self)
        ensures
            r.name matches Some(v) && v@ == name@,
            r == (EntrypointBuilder { name: r.name, ..self }),
    {
        EntrypointBuilder { name: Some(name.to_string()), ..self }
    }

    pub fn server(self, server: &str) -> (r: Self)
        ensures
            r.server matches Some(v) && v@ == server@,
            r == (EntrypointBuilder { server: r.server, ..self }),
    {
        EntrypointBuilder { server: Some(server.to_string()), ..self }
    }

    pub fn username(self, username: &str) -> (r: Self)
        ensures
            r.username matches Some(v) && v@ == username@,
            r == (EntrypointBuilder { username: r.username, ..self }),
    {
        EntrypointBuilder { username: Some(username.to_string()), ..self }
    }

    pub fn password(self, password: &str) -> (r: Self)
        ensures
            r.password matches Some(v) && v@ == password@,
            r == (EntrypointBuilder { password: r.password, ..self }),
    {
        EntrypointBuilder { password: Some(password.to_string()), ..self }
    }

    pub fn protocol(self, protocol: Protocol) -> (r: Self)
        ensures
            r.protocol == Some(protocol),
            r == (EntrypointBuilder { protocol: r.protocol, ..self }),
    {
        EntrypointBuilder { protocol: Some(protocol), ..self }
    }

    pub fn cookie(self, cookie: &str) -> (r: Self)
        ensures
            r.cookie matches Some(v) && v@ == cookie@,
            r == (EntrypointBuilder { cookie: r.cookie, ..self }),
    {
        EntrypointBuilder { cookie: Some(cookie.to_string()), ..self }
    }

    pub fn enable_udp(self, enable_udp: bool) -> (r: Self)
        ensures
            r.enable_udp == enable_udp,
            r == (EntrypointBuilder { enable_udp, ..self }),
    {
        EntrypointBuilder { enable_udp, ..self }
    }

    pub fn accept_insecure_cert(self, accept_insecure_cert: bool) -> (r: Self)
        ensures
            r.accept_insecure_cert == Some(accept_insecure_cert),
            r == (EntrypointBuilder { accept_insecure_cert: r.accept_insecure_cert, ..self }),
    {
        EntrypointBuilder { accept_insecure_cert: Some(accept_insecure_cert), ..self }
    }

    /// A missing server is the one way to fail; everything else has a
    /// default. A missing protocol resolves to AnyConnect, and a missing
    /// insecure-certificate policy to rejection.
    pub fn build(&self) -> (r: OpenconnectResult<Entrypoint>)
        ensures
            r is Ok <==> self.server is Some,
            self.server is None ==> (r matches Err(e) && e is EntrypointConfigError),
            r matches Ok(e) ==> {
                &&& e.name == self.name
                &&& Some(e.server) == self.server
                &&& e.username == self.username
                &&& e.password == self.password
                &&& (self.protocol matches Some(p) ==> e.protocol == p)
                &&& (self.protocol is None ==> e.protocol.name@ == "anyconnect"@)
                &&& e.cookie == self.cookie
                &&& e.enable_udp == self.enable_udp
                &&& e.accept_insecure_cert == (if self.accept_insecure_cert is Some {
                    self.accept_insecure_cert.unwrap()
                } else {
                    false
                })
            },
    {
        let server = match &self.server {
            Some(s) => s.clone(),
            None => {
                return Err(
                    OpenconnectError::EntrypointConfigError("Server is required".to_string()),
                );
            },
        };

        let protocol = match &self.protocol {
            Some(p) => p.duplicate(),
            None => get_anyconnect_protocol(),
        };

        Ok(Entrypoint {
            name: clone_opt_string(&self.name),
            server,
            username: clone_opt_string(&self.username),
            password: clone_opt_string(&self.password),
            protocol,
            cookie: clone_opt_string(&self.cookie),
            enable_udp: self.enable_udp,
            accept_insecure_cert: match self.accept_insecure_cert {
                Some(b) => b,
                None => false,
            },
        })
    }
}

impl Default for EntrypointBuilder {
    fn default() -> (r: Self)
        ensures
            r.name is None,
            r.server is None,
            r.username is None,
            r.password is None,
            r.protocol is None,
            r.cookie is None,
            r.enable_udp == true,
            r.accept_insecure_cert is None,
    {
        EntrypointBuilder::new()
    }
}

} // verus!
