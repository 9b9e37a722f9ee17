//! The credentials with which a device joins its network.

use crate::error::{CredentialField, TyrError};
use vstd::prelude::*;

verus! {

/// The number of characters of a device identifier.
pub const DEVEUI_LENGTH: usize = 16;

/// The number of characters of an application identifier.
pub const APPEUI_LENGTH: usize = 16;

/// The number of characters of an application key.
pub const APPKEY_LENGTH: usize = 32;

/// The first credential, in the order `deveui`, `appeui`, `appkey`, that
/// does not have the length of its kind.
pub open spec fn credential_fault(
    deveui: Seq<char>,
    appeui: Seq<char>,
    appkey: Seq<char>,
) -> Option<CredentialField> {
    if deveui.len() != DEVEUI_LENGTH {
        Some(CredentialField::DevEui)
    } else if appeui.len() != APPEUI_LENGTH {
        Some(CredentialField::AppEui)
    } else if appkey.len() != APPKEY_LENGTH {
        Some(CredentialField::AppKey)
    } else {
        None
    }
}

/// What the validation of three credentials returns.
pub open spec fn credentials_outcome(
    deveui: Seq<char>,
    appeui: Seq<char>,
    appkey: Seq<char>,
) -> Result<(), TyrError> {
    match credential_fault(deveui, appeui, appkey) {
        Some(field) => Err(TyrError::InvalidCredentialLength(field)),
        None => Ok(()),
    }
}

/// Checks the lengths of the credentials, counted in characters, before
/// anything is done with them. They are looked at one after the other, and
/// the first that is too short or too long is the error.
pub fn validate_credentials(deveui: &str, appeui: &str, appkey: &str) -> (r: Result<(), TyrError>)
    ensures
        r == credentials_outcome(deveui@, appeui@, appkey@),
{
    if deveui.unicode_len() != DEVEUI_LENGTH {
        return Err(TyrError::InvalidCredentialLength(CredentialField::DevEui));
    }
    if appeui.unicode_len() != APPEUI_LENGTH {
        return Err(TyrError::InvalidCredentialLength(CredentialField::AppEui));
    }
    if appkey.unicode_len() != APPKEY_LENGTH {
        return Err(TyrError::InvalidCredentialLength(CredentialField::AppKey));
    }
    Ok(())
}

} // verus!
