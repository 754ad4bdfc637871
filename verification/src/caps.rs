//! The capabilities a platform backend advertises.
//!
//! Every platform quirk that affects what a caller may do is surfaced as a
//! capability flag and enforced by the uniform manager before dispatch;
//! backend code never silently accepts an invalid specification.

use vstd::prelude::*;

verus! {

/// The capabilities of a service manager backend: one flag per platform
/// quirk. A backend advertises a set of flags; [`ServiceCapabilities::contains`]
/// asks whether every flag of another set is present.
#[derive(Copy, Clone, Debug, PartialEq, Eq, Structural)]
pub struct ServiceCapabilities {
    /// The backend requires a password when a custom user is used.
    pub custom_user_requires_password: bool,
    /// The backend supports running as a custom group.
    pub supports_custom_group: bool,
    /// User services require a new logon before they can be started.
    pub user_services_require_new_logon: bool,
    /// Restart-on-failure requires autostart to be enabled.
    pub restart_on_failure_requires_autostart: bool,
    /// The backend prepends a name prefix to service names.
    pub uses_name_prefix: bool,
    /// User services require elevated privileges to be installed.
    pub user_services_req_elevated_priv_for_install: bool,
    /// The backend reports pending and paused states.
    pub supports_pending_paused_states: bool,
    /// Fully qualified user service names change between sessions and must
    /// not be stored.
    pub user_service_name_is_dynamic: bool,
    /// The backend supports a custom description.
    pub supports_description: bool,
    /// The backend supports a custom display name.
    pub supports_display_name: bool,
}

impl ServiceCapabilities {
    /// Whether every flag of `other` is present in `self`.
    pub open spec fn spec_contains(self, other: Self) -> bool {
        &&& other.custom_user_requires_password ==> self.custom_user_requires_password
        &&& other.supports_custom_group ==> self.supports_custom_group
        &&& other.user_services_require_new_logon ==> self.user_services_require_new_logon
        &&& other.restart_on_failure_requires_autostart
            ==> self.restart_on_failure_requires_autostart
        &&& other.uses_name_prefix ==> self.uses_name_prefix
        &&& other.user_services_req_elevated_priv_for_install
            ==> self.user_services_req_elevated_priv_for_install
        &&& other.supports_pending_paused_states ==> self.supports_pending_paused_states
        &&& other.user_service_name_is_dynamic ==> self.user_service_name_is_dynamic
        &&& other.supports_description ==> self.supports_description
        &&& other.supports_display_name ==> self.supports_display_name
    }

    /// The set with no flags.
    pub fn empty() -> (r: Self)
        ensures
            r == (ServiceCapabilities {
                custom_user_requires_password: false,
                supports_custom_group: false,
                user_services_require_new_logon: false,
                restart_on_failure_requires_autostart: false,
                uses_name_prefix: false,
                user_services_req_elevated_priv_for_install: false,
                supports_pending_paused_states: false,
                user_service_name_is_dynamic: false,
                supports_description: false,
                supports_display_name: false,
            }),
    {
        ServiceCapabilities {
            custom_user_requires_password: false,
            supports_custom_group: false,
            user_services_require_new_logon: false,
            restart_on_failure_requires_autostart: false,
            uses_name_prefix: false,
            user_services_req_elevated_priv_for_install: false,
            supports_pending_paused_states: false,
            user_service_name_is_dynamic: false,
            supports_description: false,
            supports_display_name: false,
        }
    }

    /// Whether every flag of `other` is present in `self`.
    pub fn contains(&self, other: &Self) -> (r: bool)
        ensures
            r == self.spec_contains(*other),
    {
        (!other.custom_user_requires_password || self.custom_user_requires_password)
            && (!other.supports_custom_group || self.supports_custom_group)
            && (!other.user_services_require_new_logon || self.user_services_require_new_logon)
            && (!other.restart_on_failure_requires_autostart
                || self.restart_on_failure_requires_autostart)
            && (!other.uses_name_prefix || self.uses_name_prefix)
            && (!other.user_services_req_elevated_priv_for_install
                || self.user_services_req_elevated_priv_for_install)
            && (!other.supports_pending_paused_states || self.supports_pending_paused_states)
            && (!other.user_service_name_is_dynamic || self.user_service_name_is_dynamic)
            && (!other.supports_description || self.supports_description)
            && (!other.supports_display_name || self.supports_display_name)
    }
}

} // verus!
