//! The configuration record that a front-end fills, and the service it describes.

use crate::service::{
    default_name, opt_text, ExecutionContext, RestartPolicy, Service, ServiceModel, ServiceType,
};
use vstd::prelude::*;

verus! {

/// What an operator asked for; unset fields take their defaults.
#[derive(Debug, Clone)]
pub struct CliArgs {
    /// Name of the service, used as its file name.
    pub name: Option<String>,
    /// The command that starts the service.
    pub command: String,
    pub service_type: Option<ServiceType>,
    pub restart: Option<RestartPolicy>,
    /// The user that runs the service.
    pub user: Option<String>,
    /// The group that runs the service.
    pub group: Option<String>,
    /// Install for the invoking user instead of the whole system.
    pub is_user: bool,
    /// A directory that replaces the default one.
    pub install_dir: Option<String>,
    /// Ask the supervisor to reload its configuration afterwards.
    pub daemon_reload: bool,
    /// Show the unit file instead of installing it.
    pub dry_run: bool,
}

/// The default configuration.
pub open spec fn is_default_args(a: CliArgs) -> bool {
    &&& opt_text(a.name) == Some("test"@)
    &&& a.command@ == "echo 'hello world'"@
    &&& a.service_type is None
    &&& a.restart is None
    &&& a.user is None
    &&& a.group is None
    &&& !a.is_user
    &&& a.install_dir is None
    &&& a.daemon_reload
    &&& !a.dry_run
}

impl Default for CliArgs {
    fn default() -> (r: Self)
        ensures
            is_default_args(r),
    {
        CliArgs {
            name: Some("test".to_string()),
            command: "echo 'hello world'".to_string(),
            service_type: None,
            restart: None,
            user: None,
            group: None,
            is_user: false,
            install_dir: None,
            daemon_reload: true,
            dry_run: false,
        }
    }
}

/// The service that a configuration describes.
pub open spec fn service_from_args(a: CliArgs) -> ServiceModel {
    ServiceModel {
        name: match a.name {
            Some(n) => n@,
            None => default_name(),
        },
        description: "This service has been generated with metsysd"@,
        after: "network.target"@,
        exec_start: a.command@,
        service_type: match a.service_type {
            Some(t) => t,
            None => ServiceType::Simple,
        },
        restart_policy: match a.restart {
            Some(p) => p,
            None => RestartPolicy::No,
        },
        user: opt_text(a.user),
        group: opt_text(a.group),
        wanted_by: "multi-user.target"@,
    }
}

impl From<CliArgs> for Service {
    fn from(a: CliArgs) -> (r: Service)
        ensures
            r@ == service_from_args(a),
    {
        let defaults = Service::default();
        let name = match a.name {
            Some(n) => n,
            None => defaults.name,
        };
        let service_type = match a.service_type {
            Some(t) => t,
            None => ServiceType::Simple,
        };
        let restart_policy = match a.restart {
            Some(p) => p,
            None => RestartPolicy::No,
        };
        Service {
            name,
            description: defaults.description,
            after: defaults.after,
            exec_ctx: ExecutionContext {
                exec_start: a.command,
                service_type,
                restart_policy,
                user: a.user,
                group: a.group,
            },
            install_ctx: defaults.install_ctx,
        }
    }
}

// Strings cannot be built in spec code, so `from` is described by its own
// `ensures` over the model rather than by `from_spec`.
impl vstd::std_specs::convert::FromSpecImpl<CliArgs> for Service {
    open spec fn obeys_from_spec() -> bool {
        false
    }

    open spec fn from_spec(v: CliArgs) -> Service {
        arbitrary()
    }
}

} // verus!
