//! Where a unit file goes, and what installing it takes.

use crate::service::{opt_text, rendered, Service, ServiceModel};
use vstd::prelude::*;
use vstd::string::*;

verus! {

/// The program that controls the supervisor.
pub const SUPERVISOR_CONTROL: &'static str = "systemctl";

/// The directory that holds the units of the whole system.
pub const SYSTEM_SERVICES_DIR: &'static str = "/etc/systemd/system";

/// The text of [`SYSTEM_SERVICES_DIR`].
pub open spec fn system_dir() -> Seq<char> {
    SYSTEM_SERVICES_DIR@
}

/// The directory that holds the units of a user whose home is `home`.
pub open spec fn user_dir(home: Seq<char>) -> Seq<char> {
    home + "/.config/systemd/user"@
}

/// Why installing a service failed.
#[derive(Debug, Clone)]
pub enum InstallError {
    /// The user scope was asked for without a directory, and no home is known.
    HomeDirectoryNotFound,
    /// The unit file could not be created in `dir`.
    FileCreateFailed { dir: String, reason: String },
    /// The supervisor's reload could not be started.
    ReloadSpawnFailed { reason: String },
}

/// The text that explains an error.
pub open spec fn error_message(e: InstallError) -> Seq<char> {
    match e {
        InstallError::HomeDirectoryNotFound => "could not find the home directory"@,
        InstallError::FileCreateFailed { dir, reason } => "could not create the service file in '"@
            + dir@ + "': "@ + reason@ + "; are you sure the directory exists? "@
            + "Hint: use --install-dir to choose another directory"@,
        InstallError::ReloadSpawnFailed { reason } => "could not reload the supervisor: "@
            + reason@,
    }
}

impl InstallError {
    /// The text that explains this error.
    pub fn message(&self) -> (r: String)
        ensures
            r@ == error_message(*self),
    {
        match self {
            InstallError::HomeDirectoryNotFound => "could not find the home directory".to_string(),
            InstallError::FileCreateFailed { dir, reason } => {
                let mut out = "could not create the service file in '".to_string();
                out.append(dir.as_str());
                out.append("': ");
                out.append(reason.as_str());
                out.append("; are you sure the directory exists? ");
                out.append("Hint: use --install-dir to choose another directory");
                out
            },
            InstallError::ReloadSpawnFailed { reason } => {
                let mut out = "could not reload the supervisor: ".to_string();
                out.append(reason.as_str());
                out
            },
        }
    }
}

/// Settings from which a [`Manager`] is built.
pub struct ManagerBuilder {
    is_user: bool,
    install_dir: Option<String>,
    with_reload: bool,
}

/// A builder's settings as plain values.
pub struct BuilderModel {
    pub is_user: bool,
    pub install_dir: Option<Seq<char>>,
    pub with_reload: bool,
}

impl View for ManagerBuilder {
    type V = BuilderModel;

    closed spec fn view(&self) -> BuilderModel {
        BuilderModel {
            is_user: self.is_user,
            install_dir: opt_text(self.install_dir),
            with_reload: self.with_reload,
        }
    }
}

/// Installs services into one resolved directory.
pub struct Manager {
    is_user: bool,
    install_dir: String,
    with_reload: bool,
    /// The directory is the computed default of the user scope.
    creates_dir: bool,
}

/// A manager as plain values.
pub struct ManagerModel {
    pub is_user: bool,
    pub install_dir: Seq<char>,
    pub with_reload: bool,
    pub creates_dir: bool,
}

impl View for Manager {
    type V = ManagerModel;

    closed spec fn view(&self) -> ManagerModel {
        ManagerModel {
            is_user: self.is_user,
            install_dir: self.install_dir@,
            with_reload: self.with_reload,
            creates_dir: self.creates_dir,
        }
    }
}

/// The install directory of a scope and an override, given the home directory;
/// `None` when the home directory is needed and unknown.
pub open spec fn resolve_dir(is_user: bool, install_dir: Option<Seq<char>>, home: Option<Seq<char>>) -> Option<Seq<char>> {
    match install_dir {
        Some(d) => Some(d),
        None => if !is_user {
            Some(system_dir())
        } else {
            match home {
                Some(h) => Some(user_dir(h)),
                None => None,
            }
        },
    }
}

/// Whether the directory of these settings is computed from the home directory.
pub open spec fn needs_home(b: BuilderModel) -> bool {
    b.is_user && b.install_dir is None
}

/// The manager that settings give, given the home directory.
pub open spec fn built(b: BuilderModel, home: Option<Seq<char>>) -> Option<ManagerModel> {
    match resolve_dir(b.is_user, b.install_dir, home) {
        Some(dir) => Some(
            ManagerModel {
                is_user: b.is_user,
                install_dir: dir,
                with_reload: b.with_reload,
                creates_dir: needs_home(b),
            },
        ),
        None => None,
    }
}

/// Directory resolution: an override is used verbatim in either scope; without
/// one, the system scope gets the fixed system directory and the user scope gets
/// `<home>/.config/systemd/user`, or nothing when the home is unknown.
pub proof fn lemma_resolution(b: BuilderModel, home: Option<Seq<char>>)
    ensures
        b.install_dir is Some ==> built(b, home) is Some && built(b, home)->Some_0.install_dir
            == b.install_dir->Some_0,
        b.install_dir is None && !b.is_user ==> built(b, home) is Some && built(
            b,
            home,
        )->Some_0.install_dir == system_dir(),
        b.install_dir is None && b.is_user ==> match home {
            Some(h) => built(b, home) is Some && built(b, home)->Some_0.install_dir == user_dir(h),
            None => built(b, home) is None,
        },
        built(b, home) is Some ==> built(b, home)->Some_0.is_user == b.is_user && built(
            b,
            home,
        )->Some_0.with_reload == b.with_reload,
{
}

/// Relies on home::home_dir: the invoking user's home directory, if one can be
/// determined; it depends on the environment.
#[verifier::external_body]
fn home_directory() -> (r: Option<String>) {
    home::home_dir().map(|p| p.to_string_lossy().into_owned())
}

impl ManagerBuilder {
    /// System scope, the default directory, reload on.
    pub fn new() -> (r: Self)
        ensures
            !r@.is_user,
            r@.install_dir is None,
            r@.with_reload,
    {
        ManagerBuilder { is_user: false, install_dir: None, with_reload: true }
    }

    pub fn set_is_user(self, is_user: bool) -> (r: Self)
        ensures
            r@ == (BuilderModel { is_user, ..self@ }),
    {
        ManagerBuilder { is_user, ..self }
    }

    pub fn set_install_dir(self, install_dir: Option<String>) -> (r: Self)
        ensures
            r@ == (BuilderModel { install_dir: opt_text(install_dir), ..self@ }),
    {
        ManagerBuilder { install_dir, ..self }
    }

    pub fn set_with_reload(self, with_reload: bool) -> (r: Self)
        ensures
            r@ == (BuilderModel { with_reload, ..self@ }),
    {
        ManagerBuilder { with_reload, ..self }
    }

    /// Builds the manager, with `home` as the home directory where one is needed.
    pub fn build_with_home(self, home: Option<String>) -> (r: Result<Manager, InstallError>)
        ensures
            match r {
                Ok(m) => built(self@, opt_text(home)) == Some(m@),
                Err(e) => built(self@, opt_text(home)) is None && e is HomeDirectoryNotFound,
            },
    {
        let creates_dir = self.is_user && self.install_dir.is_none();
        let dir = match self.install_dir {
            Some(d) => d,
            None => {
                if !self.is_user {
                    SYSTEM_SERVICES_DIR.to_string()
                } else {
                    match home {
                        Some(h) => h.concat("/.config/systemd/user"),
                        None => {
                            return Err(InstallError::HomeDirectoryNotFound);
                        },
                    }
                }
            },
        };
        Ok(Manager { is_user: self.is_user, install_dir: dir, with_reload: self.with_reload, creates_dir })
    }

    /// Builds the manager, asking for the home directory only where it is needed.
    pub fn build(self) -> (r: Result<Manager, InstallError>)
        ensures
            match r {
                Ok(m) => exists|h: Option<Seq<char>>| built(self@, h) == Some(m@),
                Err(e) => needs_home(self@) && e is HomeDirectoryNotFound,
            },
            !needs_home(self@) ==> r is Ok && built(self@, None) == Some(r->Ok_0@),
    {
        if self.is_user && self.install_dir.is_none() {
            self.build_with_home(home_directory())
        } else {
            self.build_with_home(None)
        }
    }
}

/// `file` placed in directory `dir`.
pub open spec fn joined(dir: Seq<char>, file: Seq<char>) -> Seq<char> {
    if dir.len() > 0 && dir.last() != '/' {
        dir + "/"@ + file
    } else {
        dir + file
    }
}

/// The file name of the unit of a service named `name`.
pub open spec fn unit_file_name(name: Seq<char>) -> Seq<char> {
    name + ".service"@
}

/// The arguments that make the supervisor reload its configuration.
pub open spec fn reload_args(is_user: bool) -> Seq<Seq<char>> {
    if is_user {
        seq!["--user"@, "daemon-reload"@]
    } else {
        seq!["daemon-reload"@]
    }
}

/// The texts of a list of strings.
pub open spec fn texts(v: Vec<String>) -> Seq<Seq<char>> {
    v@.map_values(|s: String| s@)
}

/// Everything that installing one service does, in order.
pub struct InstallPlan {
    /// A directory to create, with its parents, before writing.
    pub create_dir: Option<String>,
    /// The unit file to create or truncate.
    pub path: String,
    /// What the unit file holds.
    pub contents: String,
    /// Arguments for the supervisor's control program, when a reload is due.
    pub reload: Option<Vec<String>>,
}

/// `p` installs the service `s` with the manager `m`.
pub open spec fn plans_install(m: ManagerModel, s: ServiceModel, p: InstallPlan) -> bool {
    &&& opt_text(p.create_dir) == (if m.creates_dir {
        Some(m.install_dir)
    } else {
        None
    })
    &&& p.path@ == joined(m.install_dir, unit_file_name(s.name))
    &&& p.contents@ == rendered(s)
    &&& match p.reload {
        Some(args) => m.with_reload && texts(args) == reload_args(m.is_user),
        None => !m.with_reload,
    }
}

/// A directory is created only for the computed default directory of the user
/// scope: never for the system directory or an override.
pub proof fn lemma_auto_create(
    b: BuilderModel,
    home: Option<Seq<char>>,
    m: ManagerModel,
    s: ServiceModel,
    p: InstallPlan,
)
    requires
        built(b, home) == Some(m),
        plans_install(m, s, p),
    ensures
        p.create_dir is Some <==> (b.is_user && b.install_dir is None),
        p.create_dir is Some ==> home is Some && p.create_dir->Some_0@ == user_dir(home->Some_0),
{
}

/// What one run does with a service.
pub enum Action {
    /// Show the unit file; touch nothing.
    Show(String),
    /// Install the unit file.
    Install(InstallPlan),
}

/// `file` placed in directory `dir`, with one separator between them.
fn join_path(dir: &str, file: &str) -> (r: String)
    ensures
        r@ == joined(dir@, file@),
{
    let mut out = dir.to_string();
    let n = dir.unicode_len();
    if n > 0 && dir.get_char(n - 1) != '/' {
        out.append("/");
    }
    out.append(file);
    out
}

/// The arguments that make the supervisor reload its configuration.
fn reload_arguments(is_user: bool) -> (r: Vec<String>)
    ensures
        texts(r) == reload_args(is_user),
{
    let mut v: Vec<String> = Vec::new();
    if is_user {
        v.push("--user".to_string());
    }
    v.push("daemon-reload".to_string());
    assert(texts(v) =~= reload_args(is_user));
    v
}

impl Manager {
    /// The steps that install `service`: the directory is created only when it is
    /// the computed default of the user scope.
    pub fn install_plan(&self, service: &Service) -> (r: InstallPlan)
        ensures
            plans_install(self@, service@, r),
    {
        let create_dir = if self.creates_dir {
            Some(self.install_dir.clone())
        } else {
            None
        };
        let file = service.name.clone().concat(".service");
        let path = join_path(self.install_dir.as_str(), file.as_str());
        let reload = if self.with_reload {
            Some(reload_arguments(self.is_user))
        } else {
            None
        };
        InstallPlan { create_dir, path, contents: service.render(), reload }
    }

    /// What a run does: a dry run only shows the unit file.
    pub fn plan(&self, service: &Service, dry_run: bool) -> (r: Action)
        ensures
            match r {
                Action::Show(text) => dry_run && text@ == rendered(service@),
                Action::Install(p) => !dry_run && plans_install(self@, service@, p),
            },
    {
        if dry_run {
            Action::Show(service.render())
        } else {
            Action::Install(self.install_plan(service))
        }
    }


    pub fn is_user(&self) -> (r: bool)
        ensures
            r == self@.is_user,
    {
        self.is_user
    }

    pub fn install_dir(&self) -> (r: &str)
        ensures
            r@ == self@.install_dir,
    {
        self.install_dir.as_str()
    }

    pub fn with_reload(&self) -> (r: bool)
        ensures
            r == self@.with_reload,
    {
        self.with_reload
    }
}

} // verus!
