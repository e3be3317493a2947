//! Upload dispatch, credential vault and upload history for a screenshot
//! sharing tool, with their rules stated as contracts.
//!
//! The library decides; the caller performs the I/O. A dispatch is driven
//! through [`Dispatcher`], the vault's encrypted file is read and written by
//! the caller around [`KeychainManager`], and the history store's rows are
//! fetched by the caller and handed to the retention and search functions.

pub mod error;
pub mod config;
pub mod upload;
pub mod keychain;
pub mod dispatch;
pub mod history;
pub mod recovery;
pub mod naming;
pub mod screenshot;
pub mod navigation;
pub mod watch;
pub mod settings_edit;

pub use config::{
    ClipboardCopyMode, Config, GeneralConfig, HistoryConfig, HistoryMode, NamingConfig, SecurityConfig,
    UploadConfig,
};
pub use dispatch::{build_destination_list, DestinationOutcome, Dispatcher, UploadOutcome};
pub use error::{ConfigError, SnaptoError};
pub use history::HistoryEntry;
pub use keychain::{CredentialMap, EncryptedStore, KeychainManager};
pub use naming::{generate_filename, TemplateParser};
pub use upload::{create_uploader, AnyUploader, LocalUploader, SftpUploader, SshUploader, UploadResult, Uploader, UploaderInfo};
