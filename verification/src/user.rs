//! User profiles.

use vstd::prelude::*;
use crate::constraints::is_authorized;
use crate::error::TixError;
use crate::identity::Identity;
use crate::state::{
    optional_text_fits, or_keep, supplied_text_fits, text_fits, text_len, User, MAX_EMAIL_LEN,
    MAX_SHORT_ID_LEN,
};

verus! {

/// Who creates a profile, and the bump of the address where it will be kept.
#[derive(Clone, Copy, Debug, PartialEq, Eq)]
pub struct CreateUser {
    pub owner: Identity,
    pub bump: u8,
}

/// Creates the profile of an owner: not verified, and nothing bought yet.
pub fn create_user(ctx: &CreateUser, username: String, email: String) -> (r: Result<
    User,
    TixError,
>)
    ensures
        r is Ok <==> text_len(username@) <= MAX_SHORT_ID_LEN && text_len(email@) <= MAX_EMAIL_LEN,
        match r {
            Ok(user) => user == (User {
                owner: ctx.owner,
                username,
                email,
                tickets_owned: 0,
                total_spent: 0,
                tickets_purchased: 0,
                is_verified: false,
                bump: ctx.bump,
            }) && user.wf(),
            Err(e) => e == TixError::InvalidEventTiming,
        },
{
    if !text_fits(&username, MAX_SHORT_ID_LEN) || !text_fits(&email, MAX_EMAIL_LEN) {
        return Err(TixError::InvalidEventTiming);
    }
    Ok(
        User {
            owner: ctx.owner,
            username,
            email,
            tickets_owned: 0,
            total_spent: 0,
            tickets_purchased: 0,
            is_verified: false,
            bump: ctx.bump,
        },
    )
}

/// A profile and the caller who wants to change it.
#[derive(Clone, Debug, PartialEq, Eq)]
pub struct UpdateUserProfile {
    pub user: User,
    /// The caller.
    pub owner: Identity,
}

/// Why a change of a profile is refused, if it is: the caller does not own
/// it, or else a new text does not fit.
pub open spec fn update_user_profile_error(
    ctx: UpdateUserProfile,
    username: Option<String>,
    email: Option<String>,
) -> Option<TixError> {
    if ctx.owner != ctx.user.owner {
        Some(TixError::InvalidAuthority)
    } else if !supplied_text_fits(username, MAX_SHORT_ID_LEN) || !supplied_text_fits(
        email,
        MAX_EMAIL_LEN,
    ) {
        Some(TixError::InvalidEventTiming)
    } else {
        None
    }
}

/// Changes the name and the e-mail address of a profile, each where a value
/// is supplied.
pub fn update_user_profile(
    ctx: &mut UpdateUserProfile,
    username: Option<String>,
    email: Option<String>,
) -> (r: Result<(), TixError>)
    ensures
        match r {
            Ok(_) => {
                &&& update_user_profile_error(*old(ctx), username, email) is None
                &&& *final(ctx) == (UpdateUserProfile {
                    user: User {
                        username: or_keep(username, old(ctx).user.username),
                        email: or_keep(email, old(ctx).user.email),
                        ..old(ctx).user
                    },
                    ..*old(ctx)
                })
                &&& old(ctx).user.wf() ==> final(ctx).user.wf()
            },
            Err(e) => update_user_profile_error(*old(ctx), username, email) == Some(e)
                && *final(ctx) == *old(ctx),
        },
{
    if !is_authorized(&ctx.owner, &ctx.user.owner) {
        return Err(TixError::InvalidAuthority);
    }
    if !optional_text_fits(&username, MAX_SHORT_ID_LEN) || !optional_text_fits(
        &email,
        MAX_EMAIL_LEN,
    ) {
        return Err(TixError::InvalidEventTiming);
    }
    if let Some(new_username) = username {
        ctx.user.username = new_username;
    }
    if let Some(new_email) = email {
        ctx.user.email = new_email;
    }
    Ok(())
}

} // verus!
