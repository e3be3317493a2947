use vstd::prelude::*;
use crate::error::SnaptoError;
use crate::upload::password_key_of;

verus! {

/// Where an interactive credential recovery stands.
#[derive(Debug, Clone, Copy, PartialEq, Eq, Structural)]
pub enum RecoveryState {
    Idle,
    AwaitingCredential,
    Retrying,
    Success,
    Failed,
}

/// What happened since the last step.
#[derive(Debug)]
pub enum RecoveryEvent {
    /// The upload failed with this error.
    UploadFailed(SnaptoError),
    /// The user typed a credential.
    CredentialSubmitted(String),
    /// The user dismissed the prompt.
    Cancelled,
    /// The upload succeeded.
    UploadSucceeded,
}

/// What the caller must do next.
#[derive(Debug)]
pub enum RecoveryAction {
    Nothing,
    /// Ask the user for a credential.
    PromptForCredential,
    /// Build a fresh uploader with this credential and upload again.
    RetryWithCredential(String),
    /// Store the credential that worked in the vault under `key`.
    SaveCredential { key: String, password: String },
    /// Report this error; the operation is over.
    Fail(SnaptoError),
}

/// The state after `event` in state `s`.
pub open spec fn next_state(s: RecoveryState, event: RecoveryEvent) -> RecoveryState {
    match (s, event) {
        (RecoveryState::Idle, RecoveryEvent::UploadFailed(SnaptoError::SshAuthentication(_))) => RecoveryState::AwaitingCredential,
        (RecoveryState::Idle, RecoveryEvent::UploadFailed(_)) => RecoveryState::Failed,
        (RecoveryState::Idle, RecoveryEvent::UploadSucceeded) => RecoveryState::Success,
        (RecoveryState::AwaitingCredential, RecoveryEvent::CredentialSubmitted(_)) => RecoveryState::Retrying,
        (RecoveryState::AwaitingCredential, RecoveryEvent::Cancelled) => RecoveryState::Idle,
        (RecoveryState::Retrying, RecoveryEvent::UploadSucceeded) => RecoveryState::Success,
        (RecoveryState::Retrying, RecoveryEvent::UploadFailed(_)) => RecoveryState::Failed,
        _ => s,
    }
}

/// The action that goes with `event` in state `s`, where `key` is the vault
/// key of the destination and `credential` the one submitted last.
pub open spec fn action_of(s: RecoveryState, event: RecoveryEvent, key: Seq<char>, credential: Option<Seq<char>>, a: RecoveryAction) -> bool {
    match (s, event) {
        (RecoveryState::Idle, RecoveryEvent::UploadFailed(e)) => match e {
            SnaptoError::SshAuthentication(_) => a is PromptForCredential,
            _ => a == RecoveryAction::Fail(e),
        },
        (RecoveryState::AwaitingCredential, RecoveryEvent::CredentialSubmitted(p)) => a == RecoveryAction::RetryWithCredential(p),
        (RecoveryState::AwaitingCredential, RecoveryEvent::Cancelled) => a == RecoveryAction::Fail(SnaptoError::OperationCancelled),
        (RecoveryState::Retrying, RecoveryEvent::UploadSucceeded) => a matches RecoveryAction::SaveCredential { key: k, password: p }
            && k@ == key && Some(p@) == credential,
        (RecoveryState::Retrying, RecoveryEvent::UploadFailed(e)) => a == RecoveryAction::Fail(e),
        _ => a is Nothing,
    }
}

/// Recovery from an authentication failure during a re-send: prompt once,
/// retry once with the submitted credential, and on success save it in the
/// vault under `<transport>_password_<destination>`. A second failure is
/// reported as it is, with no further retry.
#[derive(Debug)]
pub struct AuthRecovery {
    state: RecoveryState,
    key: String,
    credential: Option<String>,
}

impl AuthRecovery {
    pub closed spec fn spec_state(&self) -> RecoveryState {
        self.state
    }

    pub closed spec fn spec_key(&self) -> Seq<char> {
        self.key@
    }

    /// A retry always has a credential to retry with.
    pub closed spec fn wf(&self) -> bool {
        self.state == RecoveryState::Retrying ==> self.credential is Some
    }

    /// The credential submitted last, if any.
    pub closed spec fn spec_credential(&self) -> Option<Seq<char>> {
        crate::upload::opt_view(self.credential)
    }

    /// A recovery for destination `destination` of kind `transport`, idle.
    pub fn new(transport: &str, destination: &str) -> (r: Self)
        ensures
            r.wf(),
            r.spec_state() == RecoveryState::Idle,
            r.spec_key() == password_key_of(transport@, destination@),
    {
        let mut key = String::from_str(transport);
        key.append("_password_");
        key.append(destination);
        AuthRecovery { state: RecoveryState::Idle, key, credential: None }
    }

    pub fn state(&self) -> (r: RecoveryState)
        ensures
            r == self.spec_state(),
    {
        self.state
    }

    /// Moves to the next state and says what to do.
    pub fn step(&mut self, event: RecoveryEvent) -> (r: RecoveryAction)
        requires
            old(self).wf(),
        ensures
            final(self).wf(),
            final(self).spec_state() == next_state(old(self).spec_state(), event),
            final(self).spec_key() == old(self).spec_key(),
            old(self).spec_state() == RecoveryState::AwaitingCredential && event is CredentialSubmitted
                ==> final(self).spec_credential() == Some(event->CredentialSubmitted_0@),
            action_of(old(self).spec_state(), event, old(self).spec_key(),
                old(self).spec_credential(), r),
    {
        match (self.state, event) {
            (RecoveryState::Idle, RecoveryEvent::UploadFailed(e)) => match e {
                SnaptoError::SshAuthentication(_) => {
                    self.state = RecoveryState::AwaitingCredential;
                    RecoveryAction::PromptForCredential
                }
                other => {
                    self.state = RecoveryState::Failed;
                    RecoveryAction::Fail(other)
                }
            },
            (RecoveryState::Idle, RecoveryEvent::UploadSucceeded) => {
                self.state = RecoveryState::Success;
                RecoveryAction::Nothing
            }
            (RecoveryState::AwaitingCredential, RecoveryEvent::CredentialSubmitted(p)) => {
                self.state = RecoveryState::Retrying;
                self.credential = Some(p.clone());
                RecoveryAction::RetryWithCredential(p)
            }
            (RecoveryState::AwaitingCredential, RecoveryEvent::Cancelled) => {
                self.state = RecoveryState::Idle;
                RecoveryAction::Fail(SnaptoError::OperationCancelled)
            }
            (RecoveryState::Retrying, RecoveryEvent::UploadSucceeded) => {
                self.state = RecoveryState::Success;
                match &self.credential {
                    Some(p) => RecoveryAction::SaveCredential { key: self.key.clone(), password: p.clone() },
                    None => RecoveryAction::Nothing,
                }
            }
            (RecoveryState::Retrying, RecoveryEvent::UploadFailed(e)) => {
                self.state = RecoveryState::Failed;
                RecoveryAction::Fail(e)
            }
            _ => RecoveryAction::Nothing,
        }
    }
}

} // verus!
