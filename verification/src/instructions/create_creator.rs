//! Creation of a creator record.

use vstd::prelude::*;

verus! {

use vstd::string::StrSliceExecFns;

use crate::error::SocialFiError;
use crate::state::Creator;

/// Validate the profile text and build the creator record for `user`: supply
/// starts at 1 and the event counter at 0. The host stores the record at the
/// address derived from `user`; storage rejects a second record for the same
/// identity.
pub fn create_creator(user: u64, name: String, bio: String) -> (result: Result<
    Creator,
    SocialFiError,
>)
    ensures
        result is Ok <==> (name@.len() <= 32 && bio@.len() <= 256),
        (result == Err::<Creator, SocialFiError>(SocialFiError::NameTooLong)) <==> name@.len()
            > 32,
        (result == Err::<Creator, SocialFiError>(SocialFiError::BioTooLong)) <==> (name@.len()
            <= 32 && bio@.len() > 256),
        result matches Ok(c) ==> c.user == user && c.name == name && c.bio == bio
            && c.current_supply == 1 && c.event_count == 0 && c.wf(),
{
    if name.as_str().unicode_len() > 32 {
        return Err(SocialFiError::NameTooLong);
    }
    if bio.as_str().unicode_len() > 256 {
        return Err(SocialFiError::BioTooLong);
    }
    Ok(
        Creator {
            user,
            name,
            bio,
            current_supply: 1,
            event_count: 0,
        },
    )
}

} // verus!
