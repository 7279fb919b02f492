//! The event gate: creation of an event record tied to a creator.

use vstd::prelude::*;

verus! {

use vstd::string::StrSliceExecFns;

use crate::error::SocialFiError;
use crate::state::Creator;
use crate::state::Event;

/// Validate and build an event record for the creator, gated behind a
/// minimum share holding.
///
/// `caller` is the identity the host authenticated for this request; it must
/// be the creator's registered owner. `now` is the host clock's reading at
/// the time of the request; the event date must lie strictly after it. The
/// required holding must be at least 1 and no more than the creator's
/// current supply.
///
/// On success the creator's event counter rises by exactly 1; the host
/// stores the record at the address derived from the creator and the
/// counter's prior value, so one creator's events stay permanently ordered
/// and addressable by index. On any rejection the creator record is
/// untouched and no record exists to store.
pub fn create_event(
    creator: &mut Creator,
    caller: u64,
    title: String,
    date: i64,
    now: i64,
    required_shares: u64,
) -> (result: Result<Event, SocialFiError>)
    requires
        old(creator).event_count < u64::MAX,
    ensures
        result is Ok <==> (caller == old(creator).user && title@.len() <= 100 && date > now && 0
            < required_shares <= old(creator).current_supply),
        (result == Err::<Event, SocialFiError>(SocialFiError::UnauthorizedCreator)) <==> caller
            != old(creator).user,
        (result == Err::<Event, SocialFiError>(SocialFiError::TitleTooLong)) <==> (caller == old(
            creator,
        ).user && title@.len() > 100),
        (result == Err::<Event, SocialFiError>(SocialFiError::InvalidDate)) <==> (caller == old(
            creator,
        ).user && title@.len() <= 100 && date <= now),
        (result == Err::<Event, SocialFiError>(SocialFiError::InvalidRequiredShares)) <==> (caller
            == old(creator).user && title@.len() <= 100 && date > now && !(0 < required_shares
            <= old(creator).current_supply)),
        result matches Ok(ev) ==> ev.creator == old(creator).user && ev.title == title && ev.date
            == date && ev.required_shares == required_shares && ev.wf(),
        result is Ok ==> final(creator).event_count == old(creator).event_count + 1,
        result is Err ==> final(creator).event_count == old(creator).event_count,
        final(creator).user == old(creator).user,
        final(creator).name == old(creator).name,
        final(creator).bio == old(creator).bio,
        final(creator).current_supply == old(creator).current_supply,
        old(creator).wf() ==> final(creator).wf(),
{
    if caller != creator.user {
        return Err(SocialFiError::UnauthorizedCreator);
    }
    if title.as_str().unicode_len() > 100 {
        return Err(SocialFiError::TitleTooLong);
    }
    if date <= now {
        return Err(SocialFiError::InvalidDate);
    }
    if required_shares == 0 || required_shares > creator.current_supply {
        return Err(SocialFiError::InvalidRequiredShares);
    }
    let event = Event { creator: creator.user, title, date, required_shares };
    creator.event_count = creator.event_count + 1;
    Ok(event)
}

} // verus!
