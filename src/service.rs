//! The service definition and its rendering into unit-file text.

use vstd::prelude::*;
use vstd::string::*;

verus! {

/// How the supervisor considers the service started.
#[derive(Debug, Copy, Clone, PartialEq, Eq, Structural, PartialOrd, Ord)]
pub enum ServiceType {
    Simple,
    Forking,
    Oneshot,
    Idle,
}

/// The token written for a service type.
pub open spec fn service_type_token(t: ServiceType) -> Seq<char> {
    match t {
        ServiceType::Simple => "simple"@,
        ServiceType::Forking => "forking"@,
        ServiceType::Oneshot => "oneshot"@,
        ServiceType::Idle => "idle"@,
    }
}

impl ServiceType {
    /// The token of this service type in a unit file.
    pub fn token(&self) -> (r: &'static str)
        ensures
            r@ == service_type_token(*self),
    {
        match self {
            ServiceType::Simple => "simple",
            ServiceType::Forking => "forking",
            ServiceType::Oneshot => "oneshot",
            ServiceType::Idle => "idle",
        }
    }
}

/// Whether and when the supervisor restarts the service after it exits.
#[derive(Debug, Copy, Clone, PartialEq, Eq, Structural, PartialOrd, Ord)]
pub enum RestartPolicy {
    Always,
    OnFailure,
    OnSuccess,
    No,
}

/// The token written for a restart policy.
pub open spec fn restart_policy_token(p: RestartPolicy) -> Seq<char> {
    match p {
        RestartPolicy::Always => "always"@,
        RestartPolicy::OnFailure => "on-failure"@,
        RestartPolicy::OnSuccess => "on-success"@,
        RestartPolicy::No => "no"@,
    }
}

impl RestartPolicy {
    /// The token of this restart policy in a unit file.
    pub fn token(&self) -> (r: &'static str)
        ensures
            r@ == restart_policy_token(*self),
    {
        match self {
            RestartPolicy::Always => "always",
            RestartPolicy::OnFailure => "on-failure",
            RestartPolicy::OnSuccess => "on-success",
            RestartPolicy::No => "no",
        }
    }
}

/// What the supervisor runs, and as whom.
#[derive(Clone)]
pub struct ExecutionContext {
    pub exec_start: String,
    pub service_type: ServiceType,
    pub restart_policy: RestartPolicy,
    pub user: Option<String>,
    pub group: Option<String>,
}

/// Where the service is hooked in when it is enabled.
#[derive(Clone)]
pub struct InstallContext {
    pub wanted_by: String,
}

/// One service: its file name and the contents of its unit file.
#[derive(Clone)]
pub struct Service {
    pub name: String,
    pub description: String,
    pub after: String,
    pub exec_ctx: ExecutionContext,
    pub install_ctx: InstallContext,
}

/// The text of an optional string.
pub open spec fn opt_text(o: Option<String>) -> Option<Seq<char>> {
    match o {
        Some(s) => Some(s@),
        None => None,
    }
}

/// A service as plain values.
pub struct ServiceModel {
    pub name: Seq<char>,
    pub description: Seq<char>,
    pub after: Seq<char>,
    pub exec_start: Seq<char>,
    pub service_type: ServiceType,
    pub restart_policy: RestartPolicy,
    pub user: Option<Seq<char>>,
    pub group: Option<Seq<char>>,
    pub wanted_by: Seq<char>,
}

impl View for Service {
    type V = ServiceModel;

    open spec fn view(&self) -> ServiceModel {
        ServiceModel {
            name: self.name@,
            description: self.description@,
            after: self.after@,
            exec_start: self.exec_ctx.exec_start@,
            service_type: self.exec_ctx.service_type,
            restart_policy: self.exec_ctx.restart_policy,
            user: opt_text(self.exec_ctx.user),
            group: opt_text(self.exec_ctx.group),
            wanted_by: self.install_ctx.wanted_by@,
        }
    }
}

/// One `Key=Value` line, with its newline.
pub open spec fn line(key: Seq<char>, value: Seq<char>) -> Seq<char> {
    key + "="@ + value + "\n"@
}

/// A line that is written only when its value is present.
pub open spec fn optional_line(key: Seq<char>, value: Option<Seq<char>>) -> Seq<char> {
    match value {
        Some(v) => line(key, v),
        None => Seq::empty(),
    }
}

/// The lines of the `[Unit]` section after its header.
pub open spec fn unit_body(s: ServiceModel) -> Seq<char> {
    line("Description"@, s.description) + line("After"@, s.after)
}

/// The lines of the `[Service]` section that are always written.
pub open spec fn service_core(s: ServiceModel) -> Seq<char> {
    line("ExecStart"@, s.exec_start) + line("Type"@, service_type_token(s.service_type))
        + line("Restart"@, restart_policy_token(s.restart_policy))
}

/// The lines of the `[Service]` section after its header.
pub open spec fn service_body(s: ServiceModel) -> Seq<char> {
    service_core(s) + optional_line("User"@, s.user) + optional_line("Group"@, s.group)
}

/// The lines of the `[Install]` section after its header.
pub open spec fn install_body(s: ServiceModel) -> Seq<char> {
    line("WantedBy"@, s.wanted_by)
}

/// The unit-file text of a service.
pub open spec fn rendered(s: ServiceModel) -> Seq<char> {
    "[Unit]\n"@ + unit_body(s) + "[Service]\n"@ + service_body(s) + "[Install]\n"@ + install_body(
        s,
    )
}

/// The text before the optional lines: both headers above them and the lines
/// that are always written.
pub open spec fn head(s: ServiceModel) -> Seq<char> {
    "[Unit]\n"@ + unit_body(s) + "[Service]\n"@ + service_core(s)
}

/// Rendering depends on the service's values alone: equal services give the
/// same text.
pub proof fn lemma_render_deterministic(a: ServiceModel, b: ServiceModel)
    requires
        a == b,
    ensures
        rendered(a) == rendered(b),
{
}

/// The `[Unit]`, `[Service]` and `[Install]` headers stand in that order, at
/// positions fixed by the lines before them, whatever the values.
pub proof fn lemma_section_order(s: ServiceModel)
    ensures
        rendered(s).subrange(0, "[Unit]\n"@.len() as int) == "[Unit]\n"@,
        ({
            let i = ("[Unit]\n"@ + unit_body(s)).len() as int;
            let j = i + ("[Service]\n"@ + service_body(s)).len();
            &&& 0 < i < j
            &&& rendered(s).subrange(i, i + "[Service]\n"@.len()) == "[Service]\n"@
            &&& rendered(s).subrange(j, j + "[Install]\n"@.len()) == "[Install]\n"@
        }),
{
    reveal_strlit("[Unit]\n");
    reveal_strlit("[Service]\n");
    let u = "[Unit]\n"@;
    let sv = "[Service]\n"@;
    let ins = "[Install]\n"@;
    let r = rendered(s);
    assert(r == u + unit_body(s) + sv + service_body(s) + ins + install_body(s));
    let i = (u + unit_body(s)).len() as int;
    let j = i + (sv + service_body(s)).len();
    assert(r.subrange(0, u.len() as int) =~= u);
    assert(r.subrange(i, i + sv.len()) =~= sv);
    assert(r.subrange(j, j + ins.len()) =~= ins);
}

/// Setting the user adds exactly one line, `User=<user>`, right after the
/// `Restart` line; an unset user leaves no trace of that line.
pub proof fn lemma_user_line(s: ServiceModel, u: Seq<char>)
    requires
        s.user is None,
    ensures
        ({
            let t = ServiceModel { user: Some(u), ..s };
            let k = head(s).len() as int;
            rendered(t) == rendered(s).subrange(0, k) + line("User"@, u) + rendered(s).subrange(
                k,
                rendered(s).len() as int,
            )
        }),
        rendered(s) == head(s) + optional_line("Group"@, s.group) + "[Install]\n"@ + install_body(s),
{
    let t = ServiceModel { user: Some(u), ..s };
    let r = rendered(s);
    let tail = optional_line("Group"@, s.group) + "[Install]\n"@ + install_body(s);
    assert(r =~= head(s) + tail);
    assert(head(t) == head(s));
    assert(rendered(t) =~= head(s) + line("User"@, u) + tail);
    assert(r.subrange(0, head(s).len() as int) =~= head(s));
    assert(r.subrange(head(s).len() as int, r.len() as int) =~= tail);
}

/// Setting the group adds exactly one line, `Group=<group>`, after the `Restart`
/// line and the user's line, if any; an unset group leaves no trace of that line.
pub proof fn lemma_group_line(s: ServiceModel, g: Seq<char>)
    requires
        s.group is None,
    ensures
        ({
            let t = ServiceModel { group: Some(g), ..s };
            let k = (head(s) + optional_line("User"@, s.user)).len() as int;
            rendered(t) == rendered(s).subrange(0, k) + line("Group"@, g) + rendered(s).subrange(
                k,
                rendered(s).len() as int,
            )
        }),
        rendered(s) == head(s) + optional_line("User"@, s.user) + "[Install]\n"@ + install_body(s),
{
    let t = ServiceModel { group: Some(g), ..s };
    let r = rendered(s);
    let front = head(s) + optional_line("User"@, s.user);
    let tail = "[Install]\n"@ + install_body(s);
    assert(r =~= front + tail);
    assert(head(t) == head(s));
    assert(rendered(t) =~= front + line("Group"@, g) + tail);
    assert(r.subrange(0, front.len() as int) =~= front);
    assert(r.subrange(front.len() as int, r.len() as int) =~= tail);
}

/// Appends one `Key=Value` line.
fn push_line(out: &mut String, key: &str, value: &str)
    ensures
        final(out)@ == old(out)@ + line(key@, value@),
{
    out.append(key);
    out.append("=");
    out.append(value);
    out.append("\n");
    assert(final(out)@ =~= old(out)@ + line(key@, value@));
}

/// Appends a line for a value that may be absent.
fn push_optional_line(out: &mut String, key: &str, value: &Option<String>)
    ensures
        final(out)@ == old(out)@ + optional_line(key@, opt_text(*value)),
{
    match value {
        Some(v) => push_line(out, key, v.as_str()),
        None => {
            assert(old(out)@ + Seq::<char>::empty() =~= old(out)@);
        },
    }
}

impl Service {
    /// The unit-file text of this service.
    pub fn render(&self) -> (r: String)
        ensures
            r@ == rendered(self@),
    {
        let mut out = String::new();
        out.append("[Unit]\n");
        push_line(&mut out, "Description", self.description.as_str());
        push_line(&mut out, "After", self.after.as_str());
        out.append("[Service]\n");
        push_line(&mut out, "ExecStart", self.exec_ctx.exec_start.as_str());
        push_line(&mut out, "Type", self.exec_ctx.service_type.token());
        push_line(&mut out, "Restart", self.exec_ctx.restart_policy.token());
        push_optional_line(&mut out, "User", &self.exec_ctx.user);
        push_optional_line(&mut out, "Group", &self.exec_ctx.group);
        out.append("[Install]\n");
        push_line(&mut out, "WantedBy", self.install_ctx.wanted_by.as_str());
        assert(out@ =~= rendered(self@));
        out
    }
}

/// The model of the default execution context.
pub open spec fn is_default_execution(e: ExecutionContext) -> bool {
    &&& e.exec_start@ == "echo 'hello world'"@
    &&& e.service_type == ServiceType::Simple
    &&& e.restart_policy == RestartPolicy::No
    &&& e.user is None
    &&& e.group is None
}

impl Default for ExecutionContext {
    fn default() -> (r: Self)
        ensures
            is_default_execution(r),
    {
        ExecutionContext {
            exec_start: "echo 'hello world'".to_string(),
            service_type: ServiceType::Simple,
            restart_policy: RestartPolicy::No,
            user: None,
            group: None,
        }
    }
}

impl Default for InstallContext {
    fn default() -> (r: Self)
        ensures
            r.wanted_by@ == "multi-user.target"@,
    {
        InstallContext { wanted_by: "multi-user.target".to_string() }
    }
}

/// The name given to a service that was not named.
pub open spec fn default_name() -> Seq<char> {
    "metsysd-42"@
}

/// The model of the default service.
pub open spec fn is_default_service(s: ServiceModel) -> bool {
    &&& s.name == default_name()
    &&& s.description == "This service has been generated with metsysd"@
    &&& s.after == "network.target"@
    &&& s.exec_start == "echo 'hello world'"@
    &&& s.service_type == ServiceType::Simple
    &&& s.restart_policy == RestartPolicy::No
    &&& s.user is None
    &&& s.group is None
    &&& s.wanted_by == "multi-user.target"@
}

impl Default for Service {
    fn default() -> (r: Self)
        ensures
            is_default_service(r@),
    {
        Service {
            name: "metsysd-42".to_string(),
            description: "This service has been generated with metsysd".to_string(),
            after: "network.target".to_string(),
            exec_ctx: ExecutionContext::default(),
            install_ctx: InstallContext::default(),
        }
    }
}

} // verus!
