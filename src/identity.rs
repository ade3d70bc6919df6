use vstd::prelude::*;

use crate::error::LockerError;
use crate::pubkey::Pubkey;

verus! {

/// What signs an operation: a persistent key, or a session token that the
/// session subsystem has already examined.
#[derive(Clone, Copy, Debug, PartialEq, Eq)]
pub enum Credential {
    /// A persistent key, and whether it signed.
    Direct { key: Pubkey, is_signer: bool },
    /// A session account and the session subsystem's verdict on it: the user
    /// it acts for, or `None` when it is expired, malformed or bound to
    /// another program.
    Session { session: Pubkey, user: Option<Pubkey> },
}

impl Credential {
    /// The user this credential speaks for, if any.
    pub open spec fn user(self) -> Option<Pubkey> {
        match self {
            Credential::Direct { key, is_signer } => if is_signer {
                Some(key)
            } else {
                None
            },
            Credential::Session { session, user } => user,
        }
    }

    /// The key that appears as the signer of the operation.
    pub open spec fn signer_key(self) -> Pubkey {
        match self {
            Credential::Direct { key, is_signer } => key,
            Credential::Session { session, user } => session,
        }
    }

    pub open spec fn is_session_spec(self) -> bool {
        self is Session
    }

    /// Whether this is a session token rather than a persistent key.
    pub fn is_session(&self) -> (r: bool)
        ensures
            r == self.is_session_spec(),
    {
        match self {
            Credential::Direct { .. } => false,
            Credential::Session { .. } => true,
        }
    }

    /// The key that appears as the signer of the operation.
    pub fn key(&self) -> (r: Pubkey)
        ensures
            r == self.signer_key(),
    {
        match self {
            Credential::Direct { key, .. } => *key,
            Credential::Session { session, .. } => *session,
        }
    }

    /// Resolves the credential to the user it speaks for. A key that did not
    /// sign, or a session that its subsystem rejected, fails with
    /// `InvalidCredential`; there is never a fallback identity.
    pub fn resolve(&self) -> (r: Result<Pubkey, LockerError>)
        ensures
            self.user() matches Some(u) ==> r == Ok::<Pubkey, LockerError>(u),
            self.user() is None ==> r == Err::<Pubkey, LockerError>(
                LockerError::InvalidCredential,
            ),
    {
        match self {
            Credential::Direct { key, is_signer } => if *is_signer {
                Ok(*key)
            } else {
                Err(LockerError::InvalidCredential)
            },
            Credential::Session { user, .. } => match user {
                Some(u) => Ok(*u),
                None => Err(LockerError::InvalidCredential),
            },
        }
    }
}

} // verus!
