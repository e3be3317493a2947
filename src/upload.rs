use vstd::prelude::*;
use crate::config::{text_is, UploadConfig, is_remote_kind};
use crate::keychain::{EncryptedStore, KeychainManager, copy_of, lookup, seals, store_contents, is_vault_error};
use crate::error::{invalid_config, message3, SnaptoError};

verus! {

/// What one successful upload produced.
#[derive(Debug, Clone)]
pub struct UploadResult {
    /// Where the file was written.
    pub remote_path: String,
    /// Public URL of the file, when the destination has a base URL.
    pub url: Option<String>,
    /// Bytes written.
    pub size: usize,
    /// Time the upload took, in milliseconds.
    pub duration_ms: u64,
}

impl UploadResult {
    /// A field-for-field copy.
    pub fn duplicate(&self) -> (r: Self)
        ensures
            r == *self,
    {
        UploadResult {
            remote_path: self.remote_path.clone(),
            url: copy_opt(&self.url),
            size: self.size,
            duration_ms: self.duration_ms,
        }
    }
}

/// Introspection data of an uploader.
#[derive(Debug, Clone)]
pub struct UploaderInfo {
    pub name: String,
    pub enabled: bool,
    pub uploader_type: String,
}

/// A destination that files can be sent to. The transfer itself is
/// asynchronous I/O and is run by the caller; this is what can be asked
/// of an uploader beforehand.
pub trait Uploader {
    /// Name of the destination.
    fn name(&self) -> &str;

    /// Whether the destination is enabled.
    fn is_enabled(&self) -> bool;

    /// Checks the fields the transport needs, before any I/O.
    fn validate(&self) -> Result<(), SnaptoError>;

    /// Name, enabled flag and kind of the destination.
    fn info(&self) -> UploaderInfo {
        UploaderInfo {
            name: String::from_str(self.name()),
            enabled: self.is_enabled(),
            uploader_type: String::from_str("generic"),
        }
    }
}

/// `s` without its trailing slashes.
pub open spec fn trim_trailing_slashes(s: Seq<char>) -> Seq<char>
    decreases s.len(),
{
    if s.len() > 0 && s.last() == '/' {
        trim_trailing_slashes(s.drop_last())
    } else {
        s
    }
}

/// The public URL of `filename` under `base`.
pub open spec fn url_of(base: Seq<char>, filename: Seq<char>) -> Seq<char> {
    trim_trailing_slashes(base) + "/"@ + filename
}

/// `filename` placed in directory `dir`.
pub open spec fn path_in(dir: Seq<char>, filename: Seq<char>) -> Seq<char> {
    if dir.len() == 0 {
        filename
    } else if dir.last() == '/' {
        dir + filename
    } else {
        dir + "/"@ + filename
    }
}

/// The URL an upload of `filename` gets under an optional base URL.
pub open spec fn optional_url(base: Option<String>, filename: Seq<char>) -> Option<Seq<char>> {
    match base {
        Some(b) => Some(url_of(b@, filename)),
        None => None,
    }
}

/// View of an optional text.
pub open spec fn opt_view(o: Option<String>) -> Option<Seq<char>> {
    match o {
        Some(s) => Some(s@),
        None => None,
    }
}

proof fn lemma_trim_prefix(s: Seq<char>, n: int)
    requires
        0 <= n <= s.len(),
        forall|j: int| n <= j < s.len() ==> s[j] == '/',
    ensures
        trim_trailing_slashes(s) == trim_trailing_slashes(s.subrange(0, n)),
    decreases s.len() - n,
{
    if n < s.len() {
        assert(s.drop_last() =~= s.subrange(0, s.len() - 1));
        lemma_trim_prefix(s.drop_last(), n);
        assert(s.drop_last().subrange(0, n) =~= s.subrange(0, n));
    } else {
        assert(s.subrange(0, n) =~= s);
    }
}

/// `base` with its trailing slashes removed, then a slash and `filename`.
pub fn join_url(base: &str, filename: &str) -> (r: String)
    ensures
        r@ == url_of(base@, filename@),
{
    let len = base.unicode_len();
    let mut end: usize = len;
    while end > 0 && base.get_char(end - 1) == '/'
        invariant
            end <= len,
            len == base@.len(),
            forall|j: int| end <= j < len ==> base@[j] == '/',
        decreases end,
    {
        end = end - 1;
    }
    proof {
        lemma_trim_prefix(base@, end as int);
        let p = base@.subrange(0, end as int);
        assert(!(p.len() > 0 && p.last() == '/'));
    }
    let mut s = String::from_str(base.substring_char(0, end));
    s.append("/");
    s.append(filename);
    s
}

/// `filename` placed in directory `dir`, with one slash between them.
pub fn join_path(dir: &str, filename: &str) -> (r: String)
    ensures
        r@ == path_in(dir@, filename@),
{
    let len = dir.unicode_len();
    let mut s = String::from_str(dir);
    if len > 0 && dir.get_char(len - 1) != '/' {
        s.append("/");
    }
    s.append(filename);
    s
}

/// The URL of `filename` under an optional base URL.
pub fn url_for(base: &Option<String>, filename: &str) -> (r: Option<String>)
    ensures
        opt_view(r) == optional_url(*base, filename@),
{
    match base {
        Some(b) => Some(join_url(b.as_str(), filename)),
        None => None,
    }
}

/// Copy of an optional text.
pub fn copy_opt(o: &Option<String>) -> (r: Option<String>)
    ensures
        r == *o,
{
    match o {
        Some(s) => Some(s.clone()),
        None => None,
    }
}

/// Relies on shellexpand::full: expands `~` and environment variables in a
/// path. The result depends on the environment, so nothing is stated of it.
#[verifier::external_body]
pub(crate) fn expand_full(path: &str) -> (r: Result<String, String>)
{
    match shellexpand::full(path) {
        Ok(p) => Ok(p.into_owned()),
        Err(e) => Err(e.to_string()),
    }
}

/// Relies on shellexpand::tilde: replaces a leading `~` with the home
/// directory. The result depends on the environment; a path that does not
/// start with `~` comes back unchanged.
#[verifier::external_body]
pub(crate) fn expand_tilde(path: &str) -> (r: String)
    ensures
        path@.len() == 0 || path@[0] != '~' ==> r@ == path@,
{
    shellexpand::tilde(path).into_owned()
}

/// Copies a payload into a destination directory on the local file system.
#[derive(Debug, Clone)]
pub struct LocalUploader {
    name: String,
    config: UploadConfig,
}

impl LocalUploader {
    pub fn new(name: String, config: UploadConfig) -> (r: Self)
        ensures
            r.spec_name() == name@,
            r.spec_config() == config,
    {
        LocalUploader { name, config }
    }

    pub closed spec fn spec_name(&self) -> Seq<char> {
        self.name@
    }

    pub closed spec fn spec_config(&self) -> UploadConfig {
        self.config
    }

    pub fn name(&self) -> (r: &str)
        ensures
            r@ == self.spec_name(),
    {
        self.name.as_str()
    }

    pub fn is_enabled(&self) -> (r: bool)
        ensures
            r == self.spec_config().enabled,
    {
        self.config.enabled
    }

    /// The destination's settings.
    pub fn config(&self) -> (r: &UploadConfig)
        ensures
            *r == self.spec_config(),
    {
        &self.config
    }

    /// A local destination needs a path, and that path must expand.
    pub fn validate(&self) -> (r: Result<(), SnaptoError>)
        ensures
            self.spec_config().local_path is None ==> r is Err,
            r matches Err(e) ==> e matches SnaptoError::Config(crate::error::ConfigError::Invalid(_)),
    {
        match &self.config.local_path {
            None => Err(invalid_config(String::from_str("Local path required"))),
            Some(p) => match expand_full(p.as_str()) {
                Ok(_) => Ok(()),
                Err(e) => Err(invalid_config(crate::error::message3("Invalid local path: ", e.as_str(), ""))),
            },
        }
    }

    /// The result of writing `data_len` bytes as `filename` at `full_path`.
    pub fn finish_upload(&self, full_path: String, filename: &str, data_len: usize, duration_ms: u64) -> (r: UploadResult)
        ensures
            r.remote_path == full_path,
            opt_view(r.url) == optional_url(self.spec_config().base_url, filename@),
            r.size == data_len,
            r.duration_ms == duration_ms,
    {
        UploadResult {
            remote_path: full_path,
            url: url_for(&self.config.base_url, filename),
            size: data_len,
            duration_ms,
        }
    }
}

impl Uploader for LocalUploader {
    fn name(&self) -> &str {
        LocalUploader::name(self)
    }

    fn is_enabled(&self) -> bool {
        LocalUploader::is_enabled(self)
    }

    fn validate(&self) -> Result<(), SnaptoError> {
        LocalUploader::validate(self)
    }
}

impl UploadConfig {
    /// A field-for-field copy.
    pub fn duplicate(&self) -> (r: Self)
        ensures
            r == *self,
    {
        UploadConfig {
            uploader_type: self.uploader_type.clone(),
            enabled: self.enabled,
            host: copy_opt(&self.host),
            port: self.port,
            username: copy_opt(&self.username),
            remote_path: copy_opt(&self.remote_path),
            base_url: copy_opt(&self.base_url),
            local_path: copy_opt(&self.local_path),
            use_key_auth: self.use_key_auth,
            key_path: copy_opt(&self.key_path),
            timeout: self.timeout,
        }
    }
}

/// One way of proving identity to an SSH server.
#[derive(Debug, Clone, Copy, PartialEq, Eq, Structural)]
pub enum AuthMethod {
    /// The private key at the configured path, unlocked with the password if one is set.
    PublicKey,
    /// The password.
    Password,
    /// Whatever identities a running ssh-agent offers.
    Agent,
}

/// The methods tried, in order, until one succeeds: the key when key
/// authentication is configured, then the password when there is one,
/// else the agent.
pub open spec fn auth_sequence(use_key: bool, has_password: bool) -> Seq<AuthMethod> {
    let first = if use_key { seq![AuthMethod::PublicKey] } else { Seq::<AuthMethod>::empty() };
    if has_password {
        first.push(AuthMethod::Password)
    } else {
        first.push(AuthMethod::Agent)
    }
}

/// What to do next while authenticating.
#[derive(Debug, Clone, Copy, PartialEq, Eq, Structural)]
pub enum AuthStep {
    /// The last attempt succeeded: the session is authenticated.
    Authenticated,
    /// Try this method next.
    Try(AuthMethod),
    /// Every method was refused.
    Refused,
}

/// Given the plan, how many of its methods were tried, and whether the last
/// attempt succeeded: stop at the first success, else try the next method,
/// else give up.
pub fn next_auth_step(plan: &Vec<AuthMethod>, tried: usize, last_succeeded: bool) -> (r: AuthStep)
    requires
        tried <= plan@.len(),
    ensures
        tried > 0 && last_succeeded ==> r == AuthStep::Authenticated,
        !(tried > 0 && last_succeeded) && tried < plan@.len() ==> r == AuthStep::Try(plan@[tried as int]),
        !(tried > 0 && last_succeeded) && tried == plan@.len() ==> r == AuthStep::Refused,
{
    if tried > 0 && last_succeeded {
        AuthStep::Authenticated
    } else if tried < plan.len() {
        AuthStep::Try(plan[tried])
    } else {
        AuthStep::Refused
    }
}

/// What is known of the remote target directory.
#[derive(Debug, Clone, Copy, PartialEq, Eq, Structural)]
pub enum RemoteDirState {
    Directory,
    NotDirectory,
    Missing,
}

/// The key under which the password of destination `name` of kind `kind` is kept.
pub open spec fn password_key_of(kind: Seq<char>, name: Seq<char>) -> Seq<char> {
    kind + "_password_"@ + name
}

/// The fields an SSH or SFTP destination needs are present.
pub open spec fn ssh_config_ok(c: UploadConfig) -> bool {
    &&& c.host is Some
    &&& c.username is Some
    &&& c.remote_path is Some
    &&& (c.use_key_auth == Some(true) ==> c.key_path is Some)
}

/// Sends a payload to a remote directory over SSH/SFTP. Connecting and
/// writing are done by the caller; the uploader holds the settings and
/// decides which steps come in which order.
#[derive(Debug, Clone)]
pub struct SshUploader {
    name: String,
    config: UploadConfig,
    password: Option<String>,
}

impl SshUploader {
    pub closed spec fn spec_name(&self) -> Seq<char> {
        self.name@
    }

    pub closed spec fn spec_config(&self) -> UploadConfig {
        self.config
    }

    pub closed spec fn spec_password(&self) -> Option<Seq<char>> {
        opt_view(self.password)
    }

    pub fn new(name: String, config: UploadConfig) -> (r: Self)
        ensures
            r.spec_name() == name@,
            r.spec_config() == config,
            r.spec_password() is None,
    {
        SshUploader { name, config, password: None }
    }

    /// The same uploader with a password for authentication.
    pub fn with_password(self, password: String) -> (r: Self)
        ensures
            r.spec_name() == self.spec_name(),
            r.spec_config() == self.spec_config(),
            r.spec_password() == Some(password@),
    {
        SshUploader { name: self.name, config: self.config, password: Some(password) }
    }

    /// Sets the password for authentication.
    pub fn set_password(&mut self, password: String)
        ensures
            final(self).spec_name() == old(self).spec_name(),
            final(self).spec_config() == old(self).spec_config(),
            final(self).spec_password() == Some(password@),
    {
        self.password = Some(password);
    }

    pub fn name(&self) -> (r: &str)
        ensures
            r@ == self.spec_name(),
    {
        self.name.as_str()
    }

    pub fn is_enabled(&self) -> (r: bool)
        ensures
            r == self.spec_config().enabled,
    {
        self.config.enabled
    }

    /// The destination's settings.
    pub fn config(&self) -> (r: &UploadConfig)
        ensures
            *r == self.spec_config(),
    {
        &self.config
    }

    /// Host, user name and remote path are required; key authentication
    /// also needs a key path.
    pub fn validate(&self) -> (r: Result<(), SnaptoError>)
        ensures
            r is Ok <==> ssh_config_ok(self.spec_config()),
            r matches Err(e) ==> e matches SnaptoError::Config(crate::error::ConfigError::Invalid(_)),
    {
        if self.config.host.is_none() {
            return Err(invalid_config(String::from_str("Host required")));
        }
        if self.config.username.is_none() {
            return Err(invalid_config(String::from_str("Username required")));
        }
        if self.config.remote_path.is_none() {
            return Err(invalid_config(String::from_str("Remote path required")));
        }
        if self.uses_key_auth() && self.config.key_path.is_none() {
            return Err(invalid_config(String::from_str("Key path required for key authentication")));
        }
        Ok(())
    }

    /// Whether key authentication is configured.
    pub fn uses_key_auth(&self) -> (r: bool)
        ensures
            r == (self.spec_config().use_key_auth == Some(true)),
    {
        match self.config.use_key_auth {
            Some(b) => b,
            None => false,
        }
    }

    /// The server port, 22 unless configured.
    pub fn port(&self) -> (r: u16)
        ensures
            r == match self.spec_config().port { Some(p) => p, None => 22u16 },
    {
        match self.config.port {
            Some(p) => p,
            None => 22,
        }
    }

    /// The password set on this uploader, if any.
    pub fn password(&self) -> (r: Option<String>)
        ensures
            opt_view(r) == self.spec_password(),
    {
        copy_opt(&self.password)
    }

    /// Authentication methods to try, in order, stopping at the first that
    /// succeeds. When all fail the upload fails with `SshAuthentication`.
    pub fn auth_plan(&self) -> (r: Vec<AuthMethod>)
        ensures
            r@ == auth_sequence(self.spec_config().use_key_auth == Some(true), self.spec_password() is Some),
    {
        let mut plan: Vec<AuthMethod> = Vec::new();
        if self.uses_key_auth() {
            plan.push(AuthMethod::PublicKey);
        }
        if self.password.is_some() {
            plan.push(AuthMethod::Password);
        } else {
            plan.push(AuthMethod::Agent);
        }
        proof {
            assert(plan@ =~= auth_sequence(self.spec_config().use_key_auth == Some(true), self.spec_password() is Some));
        }
        plan
    }

    /// Whether the remote directory is usable, must be created, or is in the way.
    pub fn remote_dir_step(state: RemoteDirState) -> (r: Result<bool, SnaptoError>)
        ensures
            state == RemoteDirState::Directory ==> r == Ok::<bool, SnaptoError>(false),
            state == RemoteDirState::Missing ==> r == Ok::<bool, SnaptoError>(true),
            state == RemoteDirState::NotDirectory ==> r matches Err(SnaptoError::Sftp(_)),
    {
        match state {
            RemoteDirState::Directory => Ok(false),
            RemoteDirState::Missing => Ok(true),
            RemoteDirState::NotDirectory => Err(SnaptoError::Sftp(String::from_str("Path exists but is not a directory"))),
        }
    }

    /// Outcome of creating the remote directory: a failed creation is
    /// forgiven when the directory exists afterwards (another writer won).
    pub fn after_mkdir(created: bool, exists_now: bool) -> (r: Result<(), SnaptoError>)
        ensures
            r is Ok <==> (created || exists_now),
            r matches Err(e) ==> e is Sftp,
    {
        if created || exists_now {
            Ok(())
        } else {
            Err(SnaptoError::Sftp(String::from_str("Failed to create directory")))
        }
    }

    /// The remote directory (home-expanded) and the full remote path of `filename`.
    pub fn remote_target(&self, filename: &str) -> (r: Result<(String, String), SnaptoError>)
        ensures
            r is Err <==> self.spec_config().remote_path is None,
            r matches Ok(t) ==> t.1@ == path_in(t.0@, filename@),
            r matches Err(e) ==> e matches SnaptoError::Config(crate::error::ConfigError::Invalid(_)),
    {
        match &self.config.remote_path {
            None => Err(invalid_config(String::from_str("Remote path not configured"))),
            Some(p) => {
                let dir = expand_tilde(p.as_str());
                let file = join_path(dir.as_str(), filename);
                Ok((dir, file))
            }
        }
    }

    /// The public URL of `filename`, when a base URL is configured.
    pub fn generate_url(&self, filename: &str) -> (r: Option<String>)
        ensures
            opt_view(r) == optional_url(self.spec_config().base_url, filename@),
    {
        url_for(&self.config.base_url, filename)
    }

    /// The result of writing `data_len` bytes as `filename` at `remote_file`.
    pub fn finish_upload(&self, remote_file: String, filename: &str, data_len: usize, duration_ms: u64) -> (r: UploadResult)
        ensures
            r.remote_path == remote_file,
            opt_view(r.url) == optional_url(self.spec_config().base_url, filename@),
            r.size == data_len,
            r.duration_ms == duration_ms,
    {
        UploadResult { remote_path: remote_file, url: self.generate_url(filename), size: data_len, duration_ms }
    }

    /// Key of this destination's password in the vault: `<kind>_password_<name>`.
    pub fn password_key(&self) -> (r: String)
        ensures
            r@ == password_key_of(self.spec_config().uploader_type@, self.spec_name()),
    {
        let mut k = self.config.uploader_type.clone();
        k.append("_password_");
        k.append(self.name.as_str());
        k
    }

    /// The password stored for this destination, if the vault has one.
    pub fn get_password_from_keychain(&self, keychain: &KeychainManager, stored: Option<&EncryptedStore>) -> (r: Option<String>)
        ensures
            !keychain.spec_uses_system() ==> (r matches Some(v) ==> store_contents(keychain.spec_master(), copy_of(stored)) matches Some(m)
                && lookup(m, password_key_of(self.spec_config().uploader_type@, self.spec_name())) == Some(v@)),
            !keychain.spec_uses_system() && store_contents(keychain.spec_master(), copy_of(stored)) is Some ==>
                opt_view(r) == lookup(store_contents(keychain.spec_master(), copy_of(stored))->Some_0,
                    password_key_of(self.spec_config().uploader_type@, self.spec_name())),
    {
        let key = self.password_key();
        match keychain.get(stored, key.as_str()) {
            Ok(v) => v,
            Err(_) => None,
        }
    }

    /// Stores `password` for this destination in the vault.
    pub fn store_password_in_keychain(&self, keychain: &KeychainManager, stored: Option<&EncryptedStore>, password: &str) -> (r: Result<Option<EncryptedStore>, SnaptoError>)
        ensures
            !keychain.spec_uses_system() ==> (r matches Ok(o) ==> o matches Some(s)
                && store_contents(keychain.spec_master(), copy_of(stored)) is Some
                && seals(keychain.spec_master(), s, store_contents(keychain.spec_master(), copy_of(stored))->Some_0.insert(
                    password_key_of(self.spec_config().uploader_type@, self.spec_name()), password@))),
            r matches Err(e) ==> is_vault_error(e),
    {
        let key = self.password_key();
        keychain.set(stored, key.as_str(), password)
    }
}

/// SFTP destinations use the same transport as SSH ones.
pub type SftpUploader = SshUploader;

impl Uploader for SshUploader {
    fn name(&self) -> &str {
        SshUploader::name(self)
    }

    fn is_enabled(&self) -> bool {
        SshUploader::is_enabled(self)
    }

    fn validate(&self) -> Result<(), SnaptoError> {
        SshUploader::validate(self)
    }
}

/// Whether the library has a transport for a destination kind: `sftp`,
/// `ssh` or `local`.
pub open spec fn kind_is_known(kind: Seq<char>) -> bool {
    is_remote_kind(kind) || kind == "local"@
}

/// An uploader of one of the known transports.
#[derive(Debug, Clone)]
pub enum AnyUploader {
    Local(LocalUploader),
    Ssh(SshUploader),
}

/// Fields of an uploader built for destination `name` with settings `config`.
pub open spec fn built_from(u: AnyUploader, name: Seq<char>, config: UploadConfig) -> bool {
    match u {
        AnyUploader::Local(l) => config.uploader_type@ == "local"@ && l.spec_name() == name && l.spec_config() == config,
        AnyUploader::Ssh(s) => is_remote_kind(config.uploader_type@) && s.spec_name() == name
            && s.spec_config() == config && s.spec_password() is None,
    }
}

/// The destination settings an uploader was built with.
pub open spec fn any_config(u: AnyUploader) -> UploadConfig {
    match u {
        AnyUploader::Local(l) => l.spec_config(),
        AnyUploader::Ssh(s) => s.spec_config(),
    }
}

/// Builds the uploader for a destination: `sftp` and `ssh` share the SSH
/// transport, `local` copies files; any other kind is a configuration error.
pub fn create_uploader(name: &str, config: &UploadConfig) -> (r: Result<AnyUploader, SnaptoError>)
    ensures
        r is Ok <==> kind_is_known(config.uploader_type@),
        r matches Ok(u) ==> built_from(u, name@, *config),
        r matches Err(e) ==> e matches SnaptoError::Config(crate::error::ConfigError::Invalid(_)),
{
    if text_is(&config.uploader_type, "sftp") || text_is(&config.uploader_type, "ssh") {
        Ok(AnyUploader::Ssh(SshUploader::new(String::from_str(name), config.duplicate())))
    } else if text_is(&config.uploader_type, "local") {
        Ok(AnyUploader::Local(LocalUploader::new(String::from_str(name), config.duplicate())))
    } else {
        Err(invalid_config(message3("Unknown uploader type: ", config.uploader_type.as_str(), "")))
    }
}

impl AnyUploader {
    pub fn name(&self) -> (r: &str)
        ensures
            r@ == match *self { AnyUploader::Local(l) => l.spec_name(), AnyUploader::Ssh(s) => s.spec_name() },
    {
        match self {
            AnyUploader::Local(l) => l.name(),
            AnyUploader::Ssh(s) => s.name(),
        }
    }

    pub fn is_enabled(&self) -> (r: bool)
        ensures
            r == any_config(*self).enabled,
    {
        match self {
            AnyUploader::Local(l) => l.is_enabled(),
            AnyUploader::Ssh(s) => s.is_enabled(),
        }
    }

    /// The transport's own pre-flight check.
    pub fn validate(&self) -> (r: Result<(), SnaptoError>)
        ensures
            self matches AnyUploader::Ssh(s) ==> (r is Ok <==> ssh_config_ok(s.spec_config())),
            self matches AnyUploader::Local(l) ==> (l.spec_config().local_path is None ==> r is Err),
            r matches Err(e) ==> e matches SnaptoError::Config(crate::error::ConfigError::Invalid(_)),
    {
        match self {
            AnyUploader::Local(l) => l.validate(),
            AnyUploader::Ssh(s) => s.validate(),
        }
    }
}

impl Uploader for AnyUploader {
    fn name(&self) -> &str {
        AnyUploader::name(self)
    }

    fn is_enabled(&self) -> bool {
        AnyUploader::is_enabled(self)
    }

    fn validate(&self) -> Result<(), SnaptoError> {
        AnyUploader::validate(self)
    }
}

} // verus!
