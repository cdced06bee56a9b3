use vstd::prelude::*;

use crate::config::clone_opt_string;
use crate::crypto::{spec_encrypted, PassEncryptor, PassEncryptorError, MAX_SEAL_LEN};
use vstd::string::StringExecFns;
use vstd::utf8::encode_utf8;

verus! {

/// A stored profile for a server using OIDC authentication.
#[derive(Debug)]
pub struct OidcServer {
    pub name: String,
    pub server: String,
    pub issuer: String,
    pub client_id: String,
    pub client_secret: Option<String>,
    pub allow_insecure: Option<bool>,
    pub updated_at: Option<String>,
}

/// A stored profile for a server using password authentication. At rest
/// the password field holds the hex-encoded nonce and sealed bytes; in
/// memory, profiles handed out for connecting are decrypted.
#[derive(Debug)]
pub struct PasswordServer {
    pub name: String,
    pub server: String,
    pub username: String,
    pub password: Option<String>,
    pub allow_insecure: Option<bool>,
    pub updated_at: Option<String>,
}

/// One stored server profile.
#[derive(Debug)]
pub enum StoredServer {
    Oidc(OidcServer),
    Password(PasswordServer),
}

/// A failure of a credential-store operation.
#[derive(Debug)]
pub enum StoredConfigError {
    BadInput(String),
    ParseError(String),
    IoError(String),
    CipherError(PassEncryptorError),
}

impl OidcServer {
    /// Field-by-field copy, fully specified.
    pub fn duplicate(&self) -> (r: OidcServer)
        ensures
            r == *self,
    {
        OidcServer {
            name: self.name.clone(),
            server: self.server.clone(),
            issuer: self.issuer.clone(),
            client_id: self.client_id.clone(),
            client_secret: clone_opt_string(&self.client_secret),
            allow_insecure: self.allow_insecure,
            updated_at: clone_opt_string(&self.updated_at),
        }
    }
}

/// Holds when `out` is `plain` decrypted with the key `secret`: whenever
/// `plain` is a genuine encryption of some password under that key, `out`
/// is exactly that password. A missing or undecryptable value comes out
/// as `None`.
pub open spec fn password_decrypts(
    secret: Seq<u8>,
    stored: Option<String>,
    out: Option<String>,
) -> bool {
    forall|nonce: Seq<u8>, s: Seq<char>|
        (nonce.len() == 24 && encode_utf8(s).len() <= MAX_SEAL_LEN && (stored matches Some(c) && c@
            == #[trigger] spec_encrypted(secret, nonce, s))) ==> (out matches Some(o) && o@ == s)
}

/// Holds when `out` is `plain` encrypted with the key `secret`: a present
/// password of tolerable length is always stored, and whatever is stored
/// is a genuine encryption of the plain password under a fresh nonce.
pub open spec fn password_encrypts(
    secret: Seq<u8>,
    plain: Option<String>,
    out: Option<String>,
) -> bool {
    &&& (plain is None ==> out is None)
    &&& (plain matches Some(p) && encode_utf8(p@).len() <= MAX_SEAL_LEN ==> out is Some)
    &&& (out matches Some(c) ==> (plain matches Some(p) && exists|nonce: Seq<u8>|
        nonce.len() == 24 && c@ == #[trigger] spec_encrypted(secret, nonce, p@)))
}

impl PasswordServer {
    /// Field-by-field copy, fully specified.
    pub fn duplicate(&self) -> (r: PasswordServer)
        ensures
            r == *self,
    {
        PasswordServer {
            name: self.name.clone(),
            server: self.server.clone(),
            username: self.username.clone(),
            password: clone_opt_string(&self.password),
            allow_insecure: self.allow_insecure,
            updated_at: clone_opt_string(&self.updated_at),
        }
    }

    /// The profile with its password decrypted; every other field is kept.
    /// A password that is not a genuine ciphertext under this key comes
    /// out as `None`.
    pub fn decrypted_by(&self, encryptor: &PassEncryptor) -> (r: PasswordServer)
        requires
            encryptor.wf(),
        ensures
            r == (PasswordServer { password: r.password, ..*self }),
            password_decrypts(encryptor.secret@, self.password, r.password),
            self.password is None ==> r.password is None,
    {
        let password: Option<String> = match &self.password {
            None => None,
            Some(p) => match encryptor.decrypt(p.as_str()) {
                Ok(s) => Some(s),
                Err(_) => None,
            },
        };
        PasswordServer {
            name: self.name.clone(),
            server: self.server.clone(),
            username: self.username.clone(),
            password,
            allow_insecure: self.allow_insecure,
            updated_at: clone_opt_string(&self.updated_at),
        }
    }

    /// The profile with its password encrypted; every other field is kept.
    pub fn encrypted_by(&self, encryptor: &PassEncryptor) -> (r: PasswordServer)
        requires
            encryptor.wf(),
        ensures
            r == (PasswordServer { password: r.password, ..*self }),
            password_encrypts(encryptor.secret@, self.password, r.password),
    {
        let password: Option<String> = match &self.password {
            None => None,
            Some(p) => match encryptor.encrypt(p.as_str()) {
                Ok(c) => Some(c),
                Err(_) => None,
            },
        };
        PasswordServer {
            name: self.name.clone(),
            server: self.server.clone(),
            username: self.username.clone(),
            password,
            allow_insecure: self.allow_insecure,
            updated_at: clone_opt_string(&self.updated_at),
        }
    }
}

impl StoredServer {
    /// The profile's unique name.
    pub open spec fn name_spec(&self) -> Seq<char> {
        match *self {
            StoredServer::Oidc(o) => o.name@,
            StoredServer::Password(p) => p.name@,
        }
    }

    /// The profile's unique name.
    pub fn name(&self) -> (r: &String)
        ensures
            r@ == self.name_spec(),
    {
        match self {
            StoredServer::Oidc(o) => &o.name,
            StoredServer::Password(p) => &p.name,
        }
    }

    /// Field-by-field copy, fully specified.
    pub fn duplicate(&self) -> (r: StoredServer)
        ensures
            r == *self,
    {
        match self {
            StoredServer::Oidc(o) => StoredServer::Oidc(o.duplicate()),
            StoredServer::Password(p) => StoredServer::Password(p.duplicate()),
        }
    }
}

/// The stored document as it stands in the credential file: the default
/// profile name and the profile list, in file order.
#[derive(Debug)]
pub struct StoredConfigsJson {
    pub default: Option<String>,
    pub servers: Vec<StoredServer>,
}

/// No two profiles share a name.
pub open spec fn unique_names(servers: Seq<StoredServer>) -> bool {
    forall|i: int, j: int|
        0 <= i < j < servers.len() ==> servers[i].name_spec() != servers[j].name_spec()
}

/// Whether some profile bears this name.
pub open spec fn contains_name(servers: Seq<StoredServer>, name: Seq<char>) -> bool {
    exists|i: int| 0 <= i < servers.len() && servers[i].name_spec() == name
}

/// The index of the profile bearing this name (meaningful when one
/// exists and names are unique).
pub open spec fn index_of_name(servers: Seq<StoredServer>, name: Seq<char>) -> int {
    choose|i: int| 0 <= i < servers.len() && servers[i].name_spec() == name
}

/// The in-memory credential store: the default profile name, the
/// profiles, and the password cipher. Names are unique; the file the
/// store was read from remains the source of truth, so every mutation is
/// followed by a save of the whole document by the embedder.
#[derive(Debug)]
pub struct StoredConfigs {
    pub default: Option<String>,
    pub servers: Vec<StoredServer>,
    pub cipher: PassEncryptor,
}

impl StoredConfigs {
    /// Names are unique and the cipher key is well formed.
    pub open spec fn wf(&self) -> bool {
        unique_names(self.servers@) && self.cipher.wf()
    }

    /// An empty store whose cipher key derives from `pass_key`, or from
    /// the machine identifier when none is given.
    pub fn new(pass_key: Option<String>) -> (r: Self)
        ensures
            r.wf(),
            r.default is None,
            r.servers@.len() == 0,
            pass_key matches Some(k) ==> r.cipher.secret@ == crate::crypto::key_of(k@),
    {
        StoredConfigs { default: None, servers: Vec::new(), cipher: PassEncryptor::new(pass_key) }
    }

    /// The index of the profile named `name`, scanning in order.
    fn find_index(&self, name: &str) -> (r: Option<usize>)
        ensures
            r matches Some(i) ==> i < self.servers@.len() && self.servers@[i as int].name_spec()
                == name@,
            r is None ==> !contains_name(self.servers@, name@),
    {
        let n = self.servers.len();
        let mut i: usize = 0;
        while i < n
            invariant
                n == self.servers@.len(),
                0 <= i <= n,
                forall|j: int| 0 <= j < i ==> self.servers@[j].name_spec() != name@,
            decreases n - i,
        {
            if crate::str_eq(self.servers[i].name().as_str(), name) {
                return Some(i);
            }
            i = i + 1;
        }
        None
    }

    /// A profile looked up by name.
    pub fn get_server(&self, name: &str) -> (r: Option<&StoredServer>)
        ensures
            r is Some <==> contains_name(self.servers@, name@),
            r matches Some(s) ==> exists|i: int|
                0 <= i < self.servers@.len() && self.servers@[i] == *s
                    && #[trigger] self.servers@[i].name_spec() == name@,
    {
        match self.find_index(name) {
            Some(i) => {
                let s = &self.servers[i];
                proof {
                    assert(self.servers@[i as int].name_spec() == name@);
                }
                Some(s)
            },
            None => None,
        }
    }

    /// The default profile, when a default name is set and a profile
    /// bears it.
    pub fn default_server(&self) -> (r: Option<&StoredServer>)
        ensures
            self.default is None ==> r is None,
            self.default matches Some(d) ==> (r is Some <==> contains_name(self.servers@, d@)),
            r matches Some(s) ==> exists|i: int|
                0 <= i < self.servers@.len() && self.servers@[i] == *s,
    {
        match &self.default {
            None => None,
            Some(d) => self.get_server(d.as_str()),
        }
    }

    /// The profile named `name`, which must be an OIDC profile; a missing
    /// name or a password profile is a `ParseError`.
    pub fn get_server_as_oidc_server(&self, name: &str) -> (r: Result<&OidcServer, StoredConfigError>)
        requires
            self.wf(),
        ensures
            r is Ok <==> exists|i: int|
                0 <= i < self.servers@.len() && #[trigger] self.servers@[i].name_spec() == name@
                    && self.servers@[i] is Oidc,
            r matches Ok(o) ==> exists|i: int|
                0 <= i < self.servers@.len() && self.servers@[i] == StoredServer::Oidc(*o)
                    && #[trigger] self.servers@[i].name_spec() == name@,
            r is Err ==> (r matches Err(e) && e is ParseError),
    {
        match self.get_server(name) {
            Some(s) => {
                let ghost wi: int = choose|i: int|
                    0 <= i < self.servers@.len() && self.servers@[i] == *s
                        && #[trigger] self.servers@[i].name_spec() == name@;
                match s {
                    StoredServer::Oidc(o) => Ok(o),
                    StoredServer::Password(_) => {
                        proof {
                            assert forall|i: int|
                                0 <= i < self.servers@.len() && #[trigger] self.servers@[
                                    i
                                ].name_spec() == name@ implies !(self.servers@[i] is Oidc) by {
                                assert(i == wi);
                            }
                        }
                        Err(
                            StoredConfigError::ParseError(
                                "Server '".to_string().concat(name).concat("' not found"),
                            ),
                        )
                    },
                }
            },
            None => Err(
                StoredConfigError::ParseError(
                    "Server '".to_string().concat(name).concat("' not found"),
                ),
            ),
        }
    }

    /// The profile named `name`, which must be a password profile; a
    /// missing name or an OIDC profile is a `ParseError`.
    pub fn get_server_as_password_server(&self, name: &str) -> (r: Result<
        &PasswordServer,
        StoredConfigError,
    >)
        requires
            self.wf(),
        ensures
            r is Ok <==> exists|i: int|
                0 <= i < self.servers@.len() && #[trigger] self.servers@[i].name_spec() == name@
                    && self.servers@[i] is Password,
            r matches Ok(p) ==> exists|i: int|
                0 <= i < self.servers@.len() && self.servers@[i] == StoredServer::Password(*p)
                    && #[trigger] self.servers@[i].name_spec() == name@,
            r is Err ==> (r matches Err(e) && e is ParseError),
    {
        match self.get_server(name) {
            Some(s) => {
                let ghost wi: int = choose|i: int|
                    0 <= i < self.servers@.len() && self.servers@[i] == *s
                        && #[trigger] self.servers@[i].name_spec() == name@;
                match s {
                    StoredServer::Password(p) => Ok(p),
                    StoredServer::Oidc(_) => {
                        proof {
                            assert forall|i: int|
                                0 <= i < self.servers@.len() && #[trigger] self.servers@[
                                    i
                                ].name_spec() == name@ implies !(self.servers@[i] is Password) by {
                                assert(i == wi);
                            }
                        }
                        Err(
                            StoredConfigError::ParseError(
                                "Server '".to_string().concat(name).concat("' not found"),
                            ),
                        )
                    },
                }
            },
            None => Err(
                StoredConfigError::ParseError(
                    "Server '".to_string().concat(name).concat("' not found"),
                ),
            ),
        }
    }

    /// Builds a store from a parsed document. A document in which two
    /// profiles share a name is refused with a `ParseError`; no profile is
    /// ever silently dropped. The cipher key derives from the machine
    /// identifier.
    pub fn from_json(json: StoredConfigsJson) -> (r: Result<StoredConfigs, StoredConfigError>)
        ensures
            r is Ok <==> unique_names(json.servers@),
            !unique_names(json.servers@) ==> (r matches Err(e) && e is ParseError),
            r matches Ok(c) ==> {
                &&& c.servers@ == json.servers@
                &&& c.default == json.default
                &&& c.wf()
            },
    {
        let n = json.servers.len();
        let mut i: usize = 0;
        while i < n
            invariant
                n == json.servers@.len(),
                0 <= i <= n,
                forall|a: int, b: int|
                    0 <= a < b < i ==> json.servers@[a].name_spec() != json.servers@[b].name_spec(),
            decreases n - i,
        {
            let mut j: usize = 0;
            while j < i
                invariant
                    0 <= j <= i < n == json.servers@.len(),
                    forall|b: int|
                        0 <= b < j ==> json.servers@[b].name_spec() != json.servers@[
                            i as int
                        ].name_spec(),
                decreases i - j,
            {
                if crate::str_eq(
                    json.servers[j].name().as_str(),
                    json.servers[i].name().as_str(),
                ) {
                    return Err(
                        StoredConfigError::ParseError(
                            "Duplicated server name: ".to_string().concat(
                                json.servers[i].name().as_str(),
                            ).concat(", check your config file"),
                        ),
                    );
                }
                j = j + 1;
            }
            i = i + 1;
        }
        Ok(StoredConfigs { default: json.default, servers: json.servers, cipher: PassEncryptor::new(None) })
    }

    /// The store as a document, ready to be written out; the profile list
    /// is kept as it stands.
    pub fn to_json(&self) -> (r: StoredConfigsJson)
        ensures
            r.default == self.default,
            r.servers@.len() == self.servers@.len(),
            forall|i: int| 0 <= i < self.servers@.len() ==> r.servers@[i] == self.servers@[i],
    {
        let mut servers: Vec<StoredServer> = Vec::new();
        let n = self.servers.len();
        let mut i: usize = 0;
        while i < n
            invariant
                n == self.servers@.len(),
                0 <= i <= n,
                servers@.len() == i,
                forall|j: int| 0 <= j < i ==> servers@[j] == self.servers@[j],
            decreases n - i,
        {
            servers.push(self.servers[i].duplicate());
            i = i + 1;
        }
        StoredConfigsJson { default: clone_opt_string(&self.default), servers }
    }

    /// Inserts or replaces the profile with `server`'s name: the stored
    /// entry is `server` stamped with `updated_at`, its password (for a
    /// password profile) encrypted with the store's key. Every other
    /// profile and the default are untouched.
    pub fn upsert_server_with_time(&mut self, server: StoredServer, updated_at: String)
        requires
            old(self).wf(),
        ensures
            final(self).wf(),
            upsert_result(*old(self), *final(self), server, updated_at),
    {
        let stamped: StoredServer = match server {
            StoredServer::Oidc(o) => StoredServer::Oidc(
                OidcServer { updated_at: Some(updated_at), ..o },
            ),
            StoredServer::Password(p) => {
                let encrypted = p.encrypted_by(&self.cipher);
                StoredServer::Password(
                    PasswordServer { updated_at: Some(updated_at), ..encrypted },
                )
            },
        };
        let ghost old_servers = self.servers@;
        match self.find_index(stamped.name().as_str()) {
            Some(i) => {
                proof {
                    lemma_unique_index(old_servers, stamped.name_spec(), i as int);
                }
                self.servers.set(i, stamped);
                proof {
                    lemma_update_keeps_unique(old_servers, i as int, self.servers@[i as int]);
                }
            },
            None => {
                self.servers.push(stamped);
                proof {
                    lemma_push_keeps_unique(old_servers, self.servers@.last());
                }
            },
        }
    }

    /// Inserts or replaces the profile with `server`'s name, stamped with
    /// the time of the call; otherwise exactly
    /// [`StoredConfigs::upsert_server_with_time`].
    pub fn upsert_server(&mut self, server: StoredServer)
        requires
            old(self).wf(),
        ensures
            final(self).wf(),
            exists|ts: String| #[trigger] upsert_result(*old(self), *final(self), server, ts),
    {
        let updated_at = now_rfc3339();
        self.upsert_server_with_time(server, updated_at);
    }

    /// Removes the profile named `name`. Removing the configured default
    /// is refused, and the store is unchanged; removing an absent name is
    /// a no-op. The document must then be saved by the embedder.
    pub fn remove_server(&mut self, name: &str) -> (r: Result<(), StoredConfigError>)
        requires
            old(self).wf(),
        ensures
            final(self).wf(),
            (old(self).default matches Some(d) && d@ == name@) ==> (r matches Err(e)
                && e is BadInput) && *final(self) == *old(self),
            !(old(self).default matches Some(d) && d@ == name@) ==> r is Ok && {
                &&& final(self).default == old(self).default
                &&& final(self).cipher == old(self).cipher
                &&& (contains_name(old(self).servers@, name@) ==> final(self).servers@ =~= old(
                    self,
                ).servers@.remove(index_of_name(old(self).servers@, name@)))
                &&& (!contains_name(old(self).servers@, name@) ==> final(self).servers@ == old(
                    self,
                ).servers@)
                &&& !contains_name(final(self).servers@, name@)
            },
    {
        let is_default = match &self.default {
            Some(d) => crate::str_eq(d.as_str(), name),
            None => false,
        };
        if is_default {
            return Err(
                StoredConfigError::BadInput(
                    "Cannot remove default server ".to_string().concat(name),
                ),
            );
        }
        let ghost old_servers = self.servers@;
        match self.find_index(name) {
            Some(i) => {
                proof {
                    lemma_unique_index(old_servers, name@, i as int);
                }
                self.servers.remove(i);
                proof {
                    lemma_remove_keeps_unique(old_servers, i as int);
                    assert forall|k: int|
                        0 <= k < self.servers@.len() implies self.servers@[k].name_spec()
                        != name@ by {
                        if k < i {
                            assert(self.servers@[k] == old_servers[k]);
                        } else {
                            assert(self.servers@[k] == old_servers[k + 1]);
                        }
                    }
                }
                Ok(())
            },
            None => Ok(()),
        }
    }

    /// Makes `name` the default profile; an unknown name is refused and
    /// nothing changes.
    pub fn set_default_server(&mut self, name: &str) -> (r: Result<(), StoredConfigError>)
        ensures
            final(self).wf() == old(self).wf(),
            r is Ok <==> contains_name(old(self).servers@, name@),
            !contains_name(old(self).servers@, name@) ==> (r matches Err(e) && e is ParseError)
                && *final(self) == *old(self),
            r is Ok ==> {
                &&& final(self).default matches Some(d) && d@ == name@
                &&& final(self).servers == old(self).servers
                &&& final(self).cipher == old(self).cipher
            },
    {
        match self.find_index(name) {
            Some(_) => {
                self.default = Some(name.to_string());
                Ok(())
            },
            None => Err(
                StoredConfigError::ParseError(
                    "Server ".to_string().concat(name).concat(" not found"),
                ),
            ),
        }
    }
}

/// A profile stripped for sharing: the server coordinates without the
/// local name or any personal credential.
#[derive(Debug)]
pub enum SharableServer {
    Oidc {
        server: String,
        allow_insecure: Option<bool>,
        issuer: String,
        client_id: String,
        client_secret: Option<String>,
    },
    Password { server: String, allow_insecure: Option<bool> },
}

impl SharableServer {
    /// What a stored profile looks like shared: the name is dropped, and a
    /// password profile sheds its username and password too.
    pub fn from_stored(server: &StoredServer) -> (r: SharableServer)
        ensures
            match *server {
                StoredServer::Oidc(o) => r == (SharableServer::Oidc {
                    server: o.server,
                    allow_insecure: o.allow_insecure,
                    issuer: o.issuer,
                    client_id: o.client_id,
                    client_secret: o.client_secret,
                }),
                StoredServer::Password(p) => r == (SharableServer::Password {
                    server: p.server,
                    allow_insecure: p.allow_insecure,
                }),
            },
    {
        match server {
            StoredServer::Oidc(o) => SharableServer::Oidc {
                server: o.server.clone(),
                allow_insecure: o.allow_insecure,
                issuer: o.issuer.clone(),
                client_id: o.client_id.clone(),
                client_secret: clone_opt_string(&o.client_secret),
            },
            StoredServer::Password(p) => SharableServer::Password {
                server: p.server.clone(),
                allow_insecure: p.allow_insecure,
            },
        }
    }

    /// Completes an imported share into a stored profile with the details
    /// the share does not carry: a fresh local name, and for a password
    /// profile the username and password.
    pub fn into_stored(self, name: String, username: Option<String>, password: Option<String>)
        -> (r: StoredServer)
        ensures
            match self {
                SharableServer::Oidc { server, allow_insecure, issuer, client_id, client_secret } => r
                    == StoredServer::Oidc(
                    OidcServer {
                        name,
                        server,
                        issuer,
                        client_id,
                        client_secret,
                        allow_insecure,
                        updated_at: None,
                    },
                ),
                SharableServer::Password { server, allow_insecure } => r matches StoredServer::Password(p)
                    && p == (PasswordServer {
                    name,
                    server,
                    username: p.username,
                    password,
                    allow_insecure,
                    updated_at: None,
                }) && (username matches Some(u) ==> p.username == u) && (username is None
                    ==> p.username@ == ""@),
            },
    {
        match self {
            SharableServer::Oidc { server, allow_insecure, issuer, client_id, client_secret } => StoredServer::Oidc(
                OidcServer {
                    name,
                    server,
                    issuer,
                    client_id,
                    client_secret,
                    allow_insecure,
                    updated_at: None,
                },
            ),
            SharableServer::Password { server, allow_insecure } => {
                let username = match username {
                    Some(u) => u,
                    None => "".to_string(),
                };
                StoredServer::Password(
                    PasswordServer {
                        name,
                        server,
                        username,
                        password,
                        allow_insecure,
                        updated_at: None,
                    },
                )
            },
        }
    }
}

/// Relies on chrono's Utc::now and to_rfc3339: the current wall-clock
/// time as an RFC 3339 string. Nothing is promised of the value.
#[verifier::external_body]
fn now_rfc3339() -> String {
    chrono::Utc::now().to_rfc3339()
}

/// The whole effect of an upsert: the profile with `server`'s name is
/// created or replaced by `server` stamped with `updated_at` (its password
/// encrypted with the store's key), and nothing else moves.
pub open spec fn upsert_result(
    pre: StoredConfigs,
    post: StoredConfigs,
    server: StoredServer,
    updated_at: String,
) -> bool {
    let stored = if contains_name(pre.servers@, server.name_spec()) {
        post.servers@[index_of_name(pre.servers@, server.name_spec())]
    } else {
        post.servers@.last()
    };
    &&& post.default == pre.default
    &&& post.cipher == pre.cipher
    &&& contains_name(post.servers@, server.name_spec())
    &&& (contains_name(pre.servers@, server.name_spec()) ==> post.servers@ =~= pre.servers@.update(
        index_of_name(pre.servers@, server.name_spec()),
        stored,
    ))
    &&& (!contains_name(pre.servers@, server.name_spec()) ==> post.servers@ =~= pre.servers@.push(
        stored,
    ))
    &&& upserted_entry(pre.cipher.secret@, server, updated_at, stored)
}

/// The relation between an upserted profile and what the store holds for
/// it: same name and payload, stamped with `updated_at`, the password of a
/// password profile encrypted with the store's key.
pub open spec fn upserted_entry(
    secret: Seq<u8>,
    server: StoredServer,
    updated_at: String,
    stored: StoredServer,
) -> bool {
    match server {
        StoredServer::Oidc(o) => stored == StoredServer::Oidc(
            OidcServer { updated_at: Some(updated_at), ..o },
        ),
        StoredServer::Password(p) => stored matches StoredServer::Password(sp) && {
            &&& sp == (PasswordServer {
                password: sp.password,
                updated_at: Some(updated_at),
                ..p
            })
            &&& password_encrypts(secret, p.password, sp.password)
        },
    }
}

/// With unique names, an index bearing a name is the index of that name.
proof fn lemma_unique_index(servers: Seq<StoredServer>, name: Seq<char>, i: int)
    requires
        unique_names(servers),
        0 <= i < servers.len(),
        servers[i].name_spec() == name,
    ensures
        contains_name(servers, name),
        index_of_name(servers, name) == i,
{
    let j = index_of_name(servers, name);
    assert(0 <= j < servers.len() && servers[j].name_spec() == name);
}

/// Replacing an entry with one of the same name keeps names unique.
proof fn lemma_update_keeps_unique(servers: Seq<StoredServer>, i: int, stored: StoredServer)
    requires
        unique_names(servers),
        0 <= i < servers.len(),
        stored.name_spec() == servers[i].name_spec(),
    ensures
        unique_names(servers.update(i, stored)),
{
    let updated = servers.update(i, stored);
    assert forall|a: int, b: int|
        0 <= a < b < updated.len() implies updated[a].name_spec() != updated[b].name_spec() by {
        assert(servers[a].name_spec() != servers[b].name_spec());
    }
}

/// Appending an entry whose name is absent keeps names unique.
proof fn lemma_push_keeps_unique(servers: Seq<StoredServer>, stored: StoredServer)
    requires
        unique_names(servers),
        !contains_name(servers, stored.name_spec()),
    ensures
        unique_names(servers.push(stored)),
{
    let pushed = servers.push(stored);
    assert forall|a: int, b: int|
        0 <= a < b < pushed.len() implies pushed[a].name_spec() != pushed[b].name_spec() by {
        if b < servers.len() {
            assert(servers[a].name_spec() != servers[b].name_spec());
        } else {
            assert(pushed[b] == stored);
            assert(pushed[a] == servers[a]);
        }
    }
}

/// Removing an entry keeps names unique.
proof fn lemma_remove_keeps_unique(servers: Seq<StoredServer>, i: int)
    requires
        unique_names(servers),
        0 <= i < servers.len(),
    ensures
        unique_names(servers.remove(i)),
{
    let removed = servers.remove(i);
    assert forall|a: int, b: int|
        0 <= a < b < removed.len() implies removed[a].name_spec() != removed[b].name_spec() by {
        let a0 = if a < i {
            a
        } else {
            a + 1
        };
        let b0 = if b < i {
            b
        } else {
            b + 1
        };
        assert(removed[a] == servers[a0]);
        assert(removed[b] == servers[b0]);
        assert(servers[a0].name_spec() != servers[b0].name_spec());
    }
}

} // verus!
