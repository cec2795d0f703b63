//! Adding and removing the virtual IP of an HA profile.

use vstd::prelude::*;
use crate::nodes::AppError;
use crate::profile_status::HaProfileStatus;
use crate::profiles::HaProfile;
use crate::reactor_config::VipConfig;
use crate::text::{decimal, push_decimal, push_str};

verus! {

/// Request for adding a VIP to a profile.
#[derive(Debug, Clone)]
pub struct AddVipRequest {
    pub address: String,
    pub netmask: u8,
    pub interface: String,
}

/// Response for VIP operations.
#[derive(Debug, Clone)]
pub struct VipOperationResponse {
    pub message: String,
}

/// A VIP as plain values: address, netmask, interface.
pub open spec fn vip_view(v: VipConfig) -> (Seq<char>, u8, Seq<char>) {
    (v.address@, v.netmask, v.interface@)
}

/// The error when a profile already has a VIP.
pub open spec fn vip_exists_message() -> Seq<char> {
    "VIP already configured for this profile. Remove existing VIP first."@
}

/// The error when a profile has no VIP to remove.
pub open spec fn no_vip_message() -> Seq<char> {
    "No VIP configured for this profile"@
}

/// Gives a profile the requested VIP; a profile that already has one is left as it is and
/// the request is refused as a conflict.
pub fn add_vip_to_profile(profile: &mut HaProfile, request: &AddVipRequest) -> (r: Result<(), AppError>)
    ensures
        old(profile).vip is Some ==> (r matches Err(AppError::Conflict(m)) && m@
            == vip_exists_message() && *final(profile) == *old(profile)),
        old(profile).vip is None ==> (r is Ok && (final(profile).vip matches Some(v) && vip_view(v)
            == (request.address@, request.netmask, request.interface@)) && *final(profile)
            == (HaProfile { vip: final(profile).vip, ..*old(profile) })),
{
    if profile.vip.is_some() {
        return Err(
            AppError::Conflict(
                "VIP already configured for this profile. Remove existing VIP first.".to_owned(),
            ),
        );
    }
    profile.vip = Some(
        VipConfig {
            address: request.address.clone(),
            netmask: request.netmask,
            interface: request.interface.clone(),
        },
    );
    Ok(())
}

/// The command that takes a VIP off its interface (a VIP already gone is no failure).
pub open spec fn spec_vip_del_command(v: (Seq<char>, u8, Seq<char>)) -> Seq<char> {
    "ip addr del "@ + v.0 + "/"@ + decimal(v.1 as nat) + " dev "@ + v.2 + " 2>/dev/null || true"@
}

/// What removing a VIP gives back: the VIP removed, and the command that takes it off the
/// interface when the profile is active.
#[derive(Debug)]
pub struct VipRemoval {
    pub removed: VipConfig,
    pub interface_command: Option<String>,
}

/// Takes the VIP off a profile; a profile without one is refused.
pub fn remove_vip_from_profile(profile: &mut HaProfile) -> (r: Result<VipRemoval, AppError>)
    ensures
        match old(profile).vip {
            None => r matches Err(AppError::Validation(m)) && m@ == no_vip_message() && *final(profile)
                == *old(profile),
            Some(v) => r matches Ok(rm) && vip_view(rm.removed) == vip_view(v) && (match rm.interface_command {
                Some(c) => old(profile).status == HaProfileStatus::Active && c@ == spec_vip_del_command(
                    vip_view(v),
                ),
                None => old(profile).status != HaProfileStatus::Active,
            }) && *final(profile) == (HaProfile { vip: None, ..*old(profile) }),
        },
{
    let old_vip = match profile.vip.take() {
        Some(v) => v,
        None => {
            return Err(AppError::Validation("No VIP configured for this profile".to_owned()));
        },
    };
    let interface_command = if profile.status == HaProfileStatus::Active {
        let mut c = "ip addr del ".to_owned();
        push_str(&mut c, old_vip.address.as_str());
        push_str(&mut c, "/");
        push_decimal(&mut c, old_vip.netmask as u64);
        push_str(&mut c, " dev ");
        push_str(&mut c, old_vip.interface.as_str());
        push_str(&mut c, " 2>/dev/null || true");
        assert(c@ =~= spec_vip_del_command(vip_view(old_vip)));
        Some(c)
    } else {
        None
    };
    Ok(VipRemoval { removed: old_vip, interface_command })
}

/// What a VIP change answers: the VIP address, what was done, the profile.
pub fn vip_change_response(address: &str, added: bool, profile: &str) -> (r: VipOperationResponse)
    ensures
        r.message@ == "VIP "@ + address@ + (if added {
            " added to"@
        } else {
            " removed from"@
        }) + " profile "@ + profile@ + ". Reload drbd-reactor to apply."@,
{
    let mut m = "VIP ".to_owned();
    push_str(&mut m, address);
    if added {
        push_str(&mut m, " added to");
    } else {
        push_str(&mut m, " removed from");
    }
    push_str(&mut m, " profile ");
    push_str(&mut m, profile);
    push_str(&mut m, ". Reload drbd-reactor to apply.");
    assert(m@ =~= "VIP "@ + address@ + (if added {
        " added to"@
    } else {
        " removed from"@
    }) + " profile "@ + profile@ + ". Reload drbd-reactor to apply."@);
    VipOperationResponse { message: m }
}

/// Removing a VIP right after adding it gives back the VIP that was requested and leaves the
/// profile as it was before.
pub proof fn law_vip_add_then_remove(
    before: HaProfile,
    added: HaProfile,
    after: HaProfile,
    request: (Seq<char>, u8, Seq<char>),
    removed: (Seq<char>, u8, Seq<char>),
)
    requires
        before.vip is None,
        added.vip matches Some(v) && vip_view(v) == request,
        added == (HaProfile { vip: added.vip, ..before }),
        added.vip matches Some(v) && removed == vip_view(v),
        after == (HaProfile { vip: None, ..added }),
    ensures
        removed == request,
        after == before,
{
}

} // verus!
