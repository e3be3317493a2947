use vstd::prelude::*;

verus! {

/// Problems with the configuration file or with one destination's settings.
#[derive(Debug, Clone, PartialEq, Eq)]
pub enum ConfigError {
    FileNotFound(String),
    Parse(String),
    Invalid(String),
    SaveFailed(String),
    InvalidDirectory(String),
    CreateDirectoryFailed(String),
}

/// Every failure the library reports.
#[derive(Debug, Clone, PartialEq, Eq)]
pub enum SnaptoError {
    Clipboard(String),
    NoImageInClipboard,
    ImageProcessing(String),
    /// Network or handshake failure.
    SshConnection(String),
    /// Every authentication method was refused; the caller may prompt for a credential.
    SshAuthentication(String),
    /// Remote I/O failure while preparing or writing the file.
    Sftp(String),
    Upload(String),
    Io(String),
    Config(ConfigError),
    InvalidPath(String),
    Database(String),
    Keychain(String),
    Encryption(String),
    History(String),
    /// A destination named in a dispatch is missing from the configuration.
    DestinationNotFound(String),
    /// The primary destination of a dispatch is disabled.
    DestinationDisabled(String),
    /// Every destination of a dispatch was disabled, or the list was empty.
    NoDestinationsAvailable,
    /// The user dismissed a credential prompt.
    OperationCancelled,
    Other(String),
}

impl ConfigError {
    /// A variant-for-variant copy.
    pub fn duplicate(&self) -> (r: Self)
        ensures
            r == *self,
    {
        match self {
            ConfigError::FileNotFound(m) => ConfigError::FileNotFound(m.clone()),
            ConfigError::Parse(m) => ConfigError::Parse(m.clone()),
            ConfigError::Invalid(m) => ConfigError::Invalid(m.clone()),
            ConfigError::SaveFailed(m) => ConfigError::SaveFailed(m.clone()),
            ConfigError::InvalidDirectory(m) => ConfigError::InvalidDirectory(m.clone()),
            ConfigError::CreateDirectoryFailed(m) => ConfigError::CreateDirectoryFailed(m.clone()),
        }
    }
}

impl SnaptoError {
    /// A variant-for-variant copy.
    pub fn duplicate(&self) -> (r: Self)
        ensures
            r == *self,
    {
        match self {
            SnaptoError::Clipboard(m) => SnaptoError::Clipboard(m.clone()),
            SnaptoError::NoImageInClipboard => SnaptoError::NoImageInClipboard,
            SnaptoError::ImageProcessing(m) => SnaptoError::ImageProcessing(m.clone()),
            SnaptoError::SshConnection(m) => SnaptoError::SshConnection(m.clone()),
            SnaptoError::SshAuthentication(m) => SnaptoError::SshAuthentication(m.clone()),
            SnaptoError::Sftp(m) => SnaptoError::Sftp(m.clone()),
            SnaptoError::Upload(m) => SnaptoError::Upload(m.clone()),
            SnaptoError::Io(m) => SnaptoError::Io(m.clone()),
            SnaptoError::Config(c) => SnaptoError::Config(c.duplicate()),
            SnaptoError::InvalidPath(m) => SnaptoError::InvalidPath(m.clone()),
            SnaptoError::Database(m) => SnaptoError::Database(m.clone()),
            SnaptoError::Keychain(m) => SnaptoError::Keychain(m.clone()),
            SnaptoError::Encryption(m) => SnaptoError::Encryption(m.clone()),
            SnaptoError::History(m) => SnaptoError::History(m.clone()),
            SnaptoError::DestinationNotFound(m) => SnaptoError::DestinationNotFound(m.clone()),
            SnaptoError::DestinationDisabled(m) => SnaptoError::DestinationDisabled(m.clone()),
            SnaptoError::NoDestinationsAvailable => SnaptoError::NoDestinationsAvailable,
            SnaptoError::OperationCancelled => SnaptoError::OperationCancelled,
            SnaptoError::Other(m) => SnaptoError::Other(m.clone()),
        }
    }
}

/// Text made of a fixed prefix, a value and a fixed suffix.
pub fn message3(prefix: &str, value: &str, suffix: &str) -> (r: String)
    ensures
        r@ == prefix@ + value@ + suffix@,
{
    let mut s = String::from_str(prefix);
    s.append(value);
    s.append(suffix);
    s
}

/// A configuration error carrying the given text.
pub fn invalid_config(msg: String) -> (r: SnaptoError)
    ensures
        r == SnaptoError::Config(ConfigError::Invalid(msg)),
{
    SnaptoError::Config(ConfigError::Invalid(msg))
}

} // verus!
