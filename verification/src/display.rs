//! The texts that describe a system and its actions to the user, and the
//! decisions that the desktop front end takes from a finished run.
use vstd::prelude::*;
use crate::model::{ActionCategory, ActionId, GpuVendor, SecureBootState, SystemInfo};
use crate::plan::Action;
use crate::sets::{ordered_vendors, ActionSet};
use crate::text::{ascii_lower, chars_of, contains_chars, contains_text, decimal, lowered, push_decimal};

verus! {

/// The label shown for a completed action.
pub open spec fn status_label_of(category: ActionCategory, id: ActionId) -> Seq<char> {
    match category {
        ActionCategory::FedoraSetup => "Enabled"@,
        ActionCategory::ExtraApps => if id == ActionId::ZshDefault || id == ActionId::Starship {
            "Configured"@
        } else {
            "Installed"@
        },
        _ => "Installed"@,
    }
}

/// The label shown for a completed action: setup actions are enabled, the
/// shell and prompt configured, everything else installed.
pub fn action_status_label(action: &Action) -> (r: &'static str)
    ensures
        r@ == status_label_of(action.category, action.id),
{
    match action.category {
        ActionCategory::FedoraSetup => "Enabled",
        ActionCategory::ExtraApps => match action.id {
            ActionId::ZshDefault | ActionId::Starship => "Configured",
            _ => "Installed",
        },
        _ => "Installed",
    }
}

/// The second line shown under an action: its status when completed, else
/// its description followed by its warning.
pub open spec fn subtitle_of(action: Action, completed: bool) -> Seq<char> {
    if completed {
        status_label_of(action.category, action.id)
    } else {
        match action.warning {
            Some(w) => action.description@ + " "@ + w@,
            None => action.description@,
        }
    }
}

/// The second line shown under an action.
pub fn action_subtitle(action: &Action, completed: bool) -> (r: String)
    ensures
        r@ == subtitle_of(*action, completed),
{
    if completed {
        return String::from_str(action_status_label(action));
    }
    match &action.warning {
        Some(warning) => {
            let mut r = action.description.clone();
            r.append(" ");
            r.append(warning.as_str());
            r
        },
        None => action.description.clone(),
    }
}

/// Whether a completed action offers to be uninstalled: all but the setup
/// actions and the login shell change.
pub fn can_uninstall(action: &Action) -> (r: bool)
    ensures
        r == (action.category != ActionCategory::FedoraSetup && action.id != ActionId::ZshDefault),
{
    action.category != ActionCategory::FedoraSetup && action.id != ActionId::ZshDefault
}

/// The heading that describes a system: name, release (or "unknown") and
/// architecture.
pub open spec fn system_title_of(system: SystemInfo) -> Seq<char> {
    system.os_name@ + " "@ + match system.fedora_version {
        Some(v) => decimal(v as nat),
        None => "unknown"@,
    } + " ("@ + system.arch@ + ")"@
}

/// The heading that describes a system.
pub fn format_system_title(system: &SystemInfo) -> (r: String)
    ensures
        r@ == system_title_of(*system),
{
    let mut r = system.os_name.clone();
    r.append(" ");
    match system.fedora_version {
        Some(v) => push_decimal(&mut r, v as u64),
        None => r.append("unknown"),
    }
    r.append(" (");
    r.append(system.arch.as_str());
    r.append(")");
    r
}

/// The name of a vendor as the front end prints it.
pub open spec fn vendor_name(v: GpuVendor) -> Seq<char> {
    match v {
        GpuVendor::Nvidia => "Nvidia"@,
        GpuVendor::Amd => "Amd"@,
        GpuVendor::Intel => "Intel"@,
        GpuVendor::Other => "Other"@,
    }
}

/// The name of a vendor as the front end prints it.
fn vendor_label(v: GpuVendor) -> (r: &'static str)
    ensures
        r@ == vendor_name(v),
{
    match v {
        GpuVendor::Nvidia => "Nvidia",
        GpuVendor::Amd => "Amd",
        GpuVendor::Intel => "Intel",
        GpuVendor::Other => "Other",
    }
}

/// The words of `ws` joined by `sep`.
pub open spec fn join_with(ws: Seq<Seq<char>>, sep: Seq<char>) -> Seq<char>
    decreases ws.len(),
{
    if ws.len() == 0 {
        Seq::empty()
    } else if ws.len() == 1 {
        ws[0]
    } else {
        join_with(ws.drop_last(), sep) + sep + ws.last()
    }
}

/// The text of the Secure Boot state.
pub open spec fn secure_boot_text(s: SecureBootState) -> Seq<char> {
    match s {
        SecureBootState::Enabled => "Secure Boot: enabled"@,
        SecureBootState::Disabled => "Secure Boot: disabled"@,
        SecureBootState::Unknown => "Secure Boot: unknown"@,
    }
}

/// The line under the heading: the GPU vendors found (in vendor order, in
/// braces, or "unknown") and the Secure Boot state.
pub open spec fn system_subtitle_of(system: SystemInfo) -> Seq<char> {
    let vendors = ordered_vendors(system.gpu_vendors@);
    let gpus = if vendors.len() == 0 {
        "GPU: unknown"@
    } else {
        "GPU: {"@ + join_with(vendors.map_values(|v: GpuVendor| vendor_name(v)), ", "@) + "}"@
    };
    gpus + " | "@ + secure_boot_text(system.secure_boot)
}

/// The line under the heading that describes a system.
pub fn format_system_subtitle(system: &SystemInfo) -> (r: String)
    ensures
        r@ == system_subtitle_of(*system),
{
    let vendors = system.gpu_vendors.to_vec();
    let ghost names = vendors@.map_values(|v: GpuVendor| vendor_name(v));
    let mut r: String;
    if vendors.len() == 0 {
        r = String::from_str("GPU: unknown");
    } else {
        r = String::from_str("GPU: {");
        r.append(vendor_label(vendors[0]));
        let mut i: usize = 1;
        proof {
            assert(names.take(1) =~= seq![names[0]]);
        }
        while i < vendors.len()
            invariant
                1 <= i <= vendors@.len(),
                names == vendors@.map_values(|v: GpuVendor| vendor_name(v)),
                r@ == "GPU: {"@ + join_with(names.take(i as int), ", "@),
            decreases vendors@.len() - i,
        {
            r.append(", ");
            r.append(vendor_label(vendors[i]));
            proof {
                let t = names.take(i + 1);
                assert(t.drop_last() =~= names.take(i as int));
                assert(t.last() == vendor_name(vendors@[i as int]));
            }
            i = i + 1;
        }
        proof {
            assert(names.take(vendors@.len() as int) =~= names);
        }
        r.append("}");
    }
    r.append(" | ");
    let sb = match system.secure_boot {
        SecureBootState::Enabled => "Secure Boot: enabled",
        SecureBootState::Disabled => "Secure Boot: disabled",
        SecureBootState::Unknown => "Secure Boot: unknown",
    };
    r.append(sb);
    r
}

/// Whether a line of helper output reports a package change (something was
/// upgraded or installed), in any case.
pub open spec fn reports_change(line: Seq<char>) -> bool {
    let lower = ascii_lower(line);
    contains_text(lower, "upgrading"@) || contains_text(lower, "installing"@) || contains_text(lower, "upgraded:"@)
        || contains_text(lower, "installed:"@)
}

/// Whether a line of helper output reports a package change.
pub fn line_reports_change(line: &str) -> (r: bool)
    ensures
        r == reports_change(line@),
{
    let chars = chars_of(line);
    let lower = lowered(&chars);
    contains_chars(&lower, "upgrading") || contains_chars(&lower, "installing") || contains_chars(
        &lower,
        "upgraded:",
    ) || contains_chars(&lower, "installed:")
}

/// Whether a finished run asks for a restart or new login: a system upgrade
/// that changed packages, or a driver or login shell change.
pub fn needs_restart(is_update: bool, has_updates: bool, applied: &ActionSet) -> (r: bool)
    ensures
        r == ((is_update && has_updates) || applied@.contains(ActionId::NvidiaDriver) || applied@.contains(
            ActionId::AmdAcceleration,
        ) || applied@.contains(ActionId::IntelAcceleration) || applied@.contains(ActionId::ZshDefault)),
{
    (is_update && has_updates) || applied.contains(ActionId::NvidiaDriver) || applied.contains(
        ActionId::AmdAcceleration,
    ) || applied.contains(ActionId::IntelAcceleration) || applied.contains(ActionId::ZshDefault)
}

} // verus!
