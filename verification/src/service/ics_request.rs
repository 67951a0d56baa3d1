//! The recovery target that the settings ask for.

use super::ics::{
    IcsAction, IcsFlow, SelectorView, WindowsIcsConnectionSelector, WindowsIcsRecoveryConfig,
    WindowsIcsTransactions,
};
use crate::error::{note_error, CoreError, Note};
use crate::settings::{IRuntime, IVerge};
use crate::text::{as_slice, non_blank, to_text};
use crate::tun::windows_runtime_tun;
use vstd::prelude::*;

verus! {

/// A request to repair the sharing between two connections.
#[derive(Debug, PartialEq, Eq)]
pub struct WindowsIcsRepairRequest {
    pub public_connection: WindowsIcsConnectionSelector,
    pub private_connection: WindowsIcsConnectionSelector,
    pub force_rebind: bool,
}

/// The view of a repair request: the public connection, the private one, and
/// whether they are bound anew.
pub type RequestView = (SelectorView, SelectorView, bool);

impl View for WindowsIcsRepairRequest {
    type V = RequestView;

    open spec fn view(&self) -> RequestView {
        (self.public_connection@, self.private_connection@, self.force_rebind)
    }
}

/// The request that the settings ask for: none unless recovery and TUN are
/// both on, and an error unless they name the private adapter. The public
/// connection is known by name, `Mihomo` unless another is given.
pub open spec fn asked_request(
    recovery_enabled: bool,
    tun_enabled: bool,
    public_name: Option<Seq<char>>,
    private_guid: Option<Seq<char>>,
    private_name: Option<Seq<char>>,
    force_rebind: bool,
) -> Result<Option<RequestView>, CoreError> {
    let guid = crate::text::given_text(private_guid);
    let name = crate::text::given_text(private_name);
    if !recovery_enabled || !tun_enabled {
        Ok(None)
    } else if guid is None && name is None {
        Err(CoreError::of(Note::IcsAdapterMissing))
    } else {
        let public = match crate::text::given_text(public_name) {
            Some(given) => given,
            None => "Mihomo"@,
        };
        Ok(Some(((None, Some(public)), (guid, name), force_rebind)))
    }
}

/// The view of a result that may hold a request.
pub open spec fn request_view(r: Result<Option<WindowsIcsRepairRequest>, CoreError>) -> Result<
    Option<RequestView>,
    CoreError,
> {
    match r {
        Ok(Some(request)) => Ok(Some(request@)),
        Ok(None) => Ok(None),
        Err(error) => Err(error),
    }
}

/// Builds the repair request that the settings ask for.
pub fn build_windows_ics_repair_request(
    recovery_enabled: bool,
    tun_enabled: bool,
    public_name: Option<&str>,
    private_guid: Option<&str>,
    private_name: Option<&str>,
    force_rebind: bool,
) -> (r: Result<Option<WindowsIcsRepairRequest>, CoreError>)
    ensures
        request_view(r) == asked_request(
            recovery_enabled,
            tun_enabled,
            crate::text::str_view(public_name),
            crate::text::str_view(private_guid),
            crate::text::str_view(private_name),
            force_rebind,
        ),
{
    if !recovery_enabled || !tun_enabled {
        return Ok(None);
    }
    let public_name = match non_blank(public_name) {
        Some(given) => given,
        None => "Mihomo",
    };
    let private_guid = to_text(non_blank(private_guid));
    let private_name = to_text(non_blank(private_name));
    if private_guid.is_none() && private_name.is_none() {
        return Err(note_error(Note::IcsAdapterMissing));
    }
    Ok(
        Some(
            WindowsIcsRepairRequest {
                public_connection: WindowsIcsConnectionSelector {
                    guid: None,
                    name: Some(public_name.to_owned()),
                },
                private_connection: WindowsIcsConnectionSelector {
                    guid: private_guid,
                    name: private_name,
                },
                force_rebind,
            },
        ),
    )
}

/// The request that the settings and the runtime configuration ask for.
pub open spec fn configured_request(verge: IVerge, runtime: IRuntime, force_rebind: bool) -> Result<
    Option<RequestView>,
    CoreError,
> {
    asked_request(
        crate::settings::switched_on(verge.enable_windows_ics_recovery),
        crate::tun::tun_enabled(runtime),
        crate::tun::tun_device(runtime),
        crate::text::text_view(verge.windows_ics_private_adapter_guid),
        crate::text::text_view(verge.windows_ics_private_adapter_name),
        force_rebind,
    )
}

/// Builds the repair request from the settings and the runtime configuration.
pub fn windows_ics_repair_request_from_config(
    verge: &IVerge,
    runtime: &IRuntime,
    force_rebind: bool,
) -> (r: Result<Option<WindowsIcsRepairRequest>, CoreError>)
    ensures
        request_view(r) == configured_request(*verge, *runtime, force_rebind),
{
    let (tun_enabled, public_name) = windows_runtime_tun(runtime);
    build_windows_ics_repair_request(
        verge.enable_windows_ics_recovery.unwrap_or(false),
        tun_enabled,
        public_name,
        as_slice(&verge.windows_ics_private_adapter_guid),
        as_slice(&verge.windows_ics_private_adapter_name),
        force_rebind,
    )
}

/// The recovery target that the settings and the runtime configuration ask
/// for: the connections of the request.
pub open spec fn configured_target(verge: IVerge, runtime: IRuntime) -> Result<
    Option<(SelectorView, SelectorView)>,
    CoreError,
> {
    match configured_request(verge, runtime, true) {
        Ok(Some(request)) => Ok(Some((request.0, request.1))),
        Ok(None) => Ok(None),
        Err(error) => Err(error),
    }
}

/// Builds the recovery target from the settings and the runtime configuration.
pub fn windows_ics_recovery_config_from_config(verge: &IVerge, runtime: &IRuntime) -> (r: Result<
    Option<WindowsIcsRecoveryConfig>,
    CoreError,
>)
    ensures
        (match r {
            Ok(target) => Ok(crate::service::ics::target_view(target)),
            Err(error) => Err(error),
        }) == configured_target(*verge, *runtime),
{
    match windows_ics_repair_request_from_config(verge, runtime, true) {
        Ok(Some(request)) => Ok(
            Some(
                WindowsIcsRecoveryConfig {
                    public_connection: request.public_connection,
                    private_connection: request.private_connection,
                },
            ),
        ),
        Ok(None) => Ok(None),
        Err(error) => Err(error),
    }
}

/// Begins to make what the settings and the runtime configuration ask for the
/// recovery target. Settings that ask for nothing clear it.
pub fn configure_windows_ics_recovery_for_config_unlocked(
    transactions: &WindowsIcsTransactions,
    verge: &IVerge,
    runtime: &IRuntime,
) -> (r: (IcsFlow, IcsAction))
    ensures
        match configured_target(*verge, *runtime) {
            Err(error) => r == (IcsFlow::Finished, IcsAction::Finish(Err(error))),
            Ok(asked) => if transactions.active is None {
                r == (
                    IcsFlow::Finished,
                    IcsAction::Finish(Err(CoreError::of(Note::NoActiveIcsTransaction))),
                )
            } else {
                &&& r.0 is Reading
                &&& crate::service::ics::target_view(r.0->Reading_target) == asked
                &&& r.1 is QuerySnapshot
            },
        },
{
    match windows_ics_recovery_config_from_config(verge, runtime) {
        Err(error) => (IcsFlow::Finished, IcsAction::Finish(Err(error))),
        Ok(target) => transactions.configure_windows_ics_recovery_target_unlocked(target),
    }
}

} // verus!
