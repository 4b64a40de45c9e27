//! The administrator's registry: who controls the contract, and whether it is paused.

use vstd::prelude::*;
use crate::error::ErrorCode;
use crate::identity::{blank, Identity};

verus! {

/// The one registry of a deployment.
///
/// It is made once, by [`initialize`], and afterwards changed only by [`toggle_pause`].
#[derive(Clone, Copy, Debug, PartialEq, Eq)]
pub struct Admin {
    /// The principal that may pause and resume the contract.
    pub authority: Identity,
    /// While set, campaigns cannot be created, donated to or withdrawn from.
    pub paused: bool,
}

/// What a registry is, as plain mathematics.
pub struct AdminView {
    pub authority: Seq<u8>,
    pub paused: bool,
}

impl View for Admin {
    type V = AdminView;

    open spec fn view(&self) -> AdminView {
        AdminView { authority: self.authority@, paused: self.paused }
    }
}

impl Default for Admin {
    /// A registry that is not yet filled in: see [`initialize`].
    fn default() -> (admin: Admin)
        ensures
            admin@ == initialized(blank()),
    {
        Admin { authority: Identity::default(), paused: false }
    }
}

/// Passes exactly when `caller` is `principal`.
pub open spec fn authorized(caller: Seq<u8>, principal: Seq<u8>) -> Result<(), ErrorCode> {
    if caller == principal {
        Ok(())
    } else {
        Err(ErrorCode::Unauthorized)
    }
}

/// Passes exactly when the registry is not paused.
pub open spec fn active(admin: AdminView) -> Result<(), ErrorCode> {
    if admin.paused {
        Err(ErrorCode::ContractPaused)
    } else {
        Ok(())
    }
}

/// The guard of every restricted operation: the caller must be the stored principal.
pub fn authorize(caller: &Identity, principal: &Identity) -> (r: Result<(), ErrorCode>)
    ensures
        r == authorized(caller@, principal@),
{
    if *caller == *principal {
        Ok(())
    } else {
        Err(ErrorCode::Unauthorized)
    }
}

impl Admin {
    /// The guard of every operation on a campaign: the contract must not be paused.
    pub fn require_active(&self) -> (r: Result<(), ErrorCode>)
        ensures
            r == active(self@),
    {
        if self.paused {
            Err(ErrorCode::ContractPaused)
        } else {
            Ok(())
        }
    }
}

/// What the making of the registry works on.
#[derive(Clone, Copy, Debug, PartialEq, Eq)]
pub struct Initialize {
    /// The record that [`initialize`] fills in.
    pub admin: Admin,
    /// The caller, who becomes the registry's authority.
    pub authority: Identity,
}

/// What a flip of the pause switch works on.
#[derive(Clone, Copy, Debug, PartialEq, Eq)]
pub struct TogglePause {
    /// The registry.
    pub admin: Admin,
    /// The caller, who must be the registry's authority.
    pub authority: Identity,
}

/// The registry as [`initialize`] makes it for `caller`: not paused, and in the caller's hand.
pub open spec fn initialized(caller: Seq<u8>) -> AdminView {
    AdminView { authority: caller, paused: false }
}

/// The outcome of a flip of the pause switch by `caller`: the registry after it, or the
/// refusal. The switch answers to the authority alone, and it answers whether or not the
/// contract is paused.
pub open spec fn toggled(admin: AdminView, caller: Seq<u8>) -> Result<AdminView, ErrorCode> {
    if caller == admin.authority {
        Ok(AdminView { paused: !admin.paused, ..admin })
    } else {
        Err(ErrorCode::Unauthorized)
    }
}

/// Makes the registry of `ctx`: its caller becomes the authority, and the contract is not
/// paused. That this happens once per deployment is for the host that stores the registry
/// to see to.
pub fn initialize(ctx: &mut Initialize) -> (r: Result<(), ErrorCode>)
    ensures
        r is Ok,
        final(ctx).admin@ == initialized(old(ctx).authority@),
        final(ctx).authority == old(ctx).authority,
{
    ctx.admin.authority = ctx.authority;
    ctx.admin.paused = false;
    Ok(())
}

/// Pauses the contract if it runs, and resumes it if it is paused, for the authority alone.
/// A refused flip changes nothing.
pub fn toggle_pause(ctx: &mut TogglePause) -> (r: Result<(), ErrorCode>)
    ensures
        match toggled(old(ctx).admin@, old(ctx).authority@) {
            Ok(admin) => r is Ok && final(ctx).admin@ == admin,
            Err(e) => r == Err::<(), ErrorCode>(e) && final(ctx).admin@ == old(ctx).admin@,
        },
        final(ctx).authority == old(ctx).authority,
{
    authorize(&ctx.authority, &ctx.admin.authority)?;
    ctx.admin.paused = !ctx.admin.paused;
    Ok(())
}

} // verus!
