//! Declarative unit configuration, assembled immutably and serialized to
//! the manager's textual format.
//!
//! Each section is built through a chainable builder and rendered
//! deterministically: equal values always give byte-for-byte equal text.
//! Rendering is total — no configuration value can make it fail.

use vstd::prelude::*;
use vstd::string::StringExecFns;

use crate::strutil::join_strs;
use crate::strutil::spec_join;
use crate::strutil::views_of_strs;

verus! {

/// The `[Unit]` stanza: description and ordering/dependency lists.
pub struct UnitConfiguration<'a> {
    pub description: &'a str,
    pub after: Vec<&'a str>,
    pub wants: Vec<&'a str>,
}

impl<'a> UnitConfiguration<'a> {
    /// The text this stanza serializes to.
    pub open spec fn spec_render(self) -> Seq<char> {
        "[Unit]\nDescription="@ + self.description@ + "\nAfter="@ + spec_join(
            views_of_strs(self.after@),
            " "@,
        ) + "\nWants="@ + spec_join(views_of_strs(self.wants@), " "@) + "\n"@
    }

    /// Serialize the stanza; deterministic and total.
    pub fn render(&self) -> (r: String)
        ensures
            r@ == self.spec_render(),
    {
        let mut r = String::from_str("[Unit]\nDescription=");
        r.append(self.description);
        r.append("\nAfter=");
        let after = join_strs(&self.after, " ");
        r.append(after.as_str());
        r.append("\nWants=");
        let wants = join_strs(&self.wants, " ");
        r.append(wants.as_str());
        r.append("\n");
        proof {
            assert(r@ =~= self.spec_render());
        }
        r
    }

    /// A builder with the empty description and no list entries.
    pub fn builder() -> (b: UnitConfigurationBuilder<'a>)
        ensures
            b.description@ == ""@,
            b.after@ == Seq::<&'a str>::empty(),
            b.wants@ == Seq::<&'a str>::empty(),
    {
        UnitConfigurationBuilder::default()
    }
}

/// Staged assembly of a [`UnitConfiguration`]; every method returns a new
/// builder with one field set or one list entry appended.
pub struct UnitConfigurationBuilder<'a> {
    pub description: &'a str,
    pub after: Vec<&'a str>,
    pub wants: Vec<&'a str>,
}

impl<'a> Default for UnitConfigurationBuilder<'a> {
    /// The empty description and no list entries.
    fn default() -> (b: Self)
        ensures
            b.description@ == ""@,
            b.after@ == Seq::<&'a str>::empty(),
            b.wants@ == Seq::<&'a str>::empty(),
    {
        UnitConfigurationBuilder { description: "", after: Vec::new(), wants: Vec::new() }
    }
}

impl<'a> UnitConfigurationBuilder<'a> {
    /// Replace the description.
    pub fn description(self, description: &'a str) -> (b: Self)
        ensures
            b == (Self { description, ..self }),
    {
        Self { description, ..self }
    }

    /// Append one entry to the `After=` list.
    pub fn after(self, after: &'a str) -> (b: Self)
        ensures
            b.description == self.description,
            b.after@ == self.after@.push(after),
            b.wants == self.wants,
    {
        let mut b = self;
        b.after.push(after);
        b
    }

    /// Append one entry to the `Wants=` list.
    pub fn wants(self, wants: &'a str) -> (b: Self)
        ensures
            b.description == self.description,
            b.after == self.after,
            b.wants@ == self.wants@.push(wants),
    {
        let mut b = self;
        b.wants.push(wants);
        b
    }

    /// Materialize the stanza.
    pub fn build(self) -> (u: UnitConfiguration<'a>)
        ensures
            u.description == self.description,
            u.after == self.after,
            u.wants == self.wants,
    {
        let UnitConfigurationBuilder { description, after, wants } = self;
        UnitConfiguration { description, after, wants }
    }
}

/// How the manager supervises the service's main process.
#[derive(Clone, Copy, Debug, PartialEq, Eq, Structural)]
pub enum ServiceType {
    Simple,
    Exec,
    Forking,
}

impl ServiceType {
    /// The keyword this kind serializes to.
    pub open spec fn spec_render(self) -> Seq<char> {
        match self {
            ServiceType::Simple => "simple"@,
            ServiceType::Exec => "exec"@,
            ServiceType::Forking => "forking"@,
        }
    }

    /// Serialize the kind to its keyword.
    pub fn render(&self) -> (r: String)
        ensures
            r@ == self.spec_render(),
    {
        match self {
            ServiceType::Simple => String::from_str("simple"),
            ServiceType::Exec => String::from_str("exec"),
            ServiceType::Forking => String::from_str("forking"),
        }
    }
}

/// When the manager restarts the service after it exits.
#[derive(Clone, Copy, Debug, PartialEq, Eq, Structural)]
pub enum RestartPolicy {
    No,
    OnSuccess,
    OnFailure,
    Always,
}

impl RestartPolicy {
    /// The keyword this policy serializes to.
    pub open spec fn spec_render(self) -> Seq<char> {
        match self {
            RestartPolicy::No => "no"@,
            RestartPolicy::OnSuccess => "on-success"@,
            RestartPolicy::OnFailure => "on-failure"@,
            RestartPolicy::Always => "always"@,
        }
    }

    /// Serialize the policy to its keyword.
    pub fn render(&self) -> (r: String)
        ensures
            r@ == self.spec_render(),
    {
        match self {
            RestartPolicy::No => String::from_str("no"),
            RestartPolicy::OnSuccess => String::from_str("on-success"),
            RestartPolicy::OnFailure => String::from_str("on-failure"),
            RestartPolicy::Always => String::from_str("always"),
        }
    }
}

/// One `KEY=VALUE` environment entry of the `[Service]` stanza.
#[derive(Clone, Copy, Debug)]
pub struct EnvironmentVariable<'a> {
    pub key: &'a str,
    pub value: &'a str,
}

impl<'a> EnvironmentVariable<'a> {
    /// The `KEY=VALUE` text this entry serializes to.
    pub open spec fn spec_render(self) -> Seq<char> {
        self.key@ + "="@ + self.value@
    }

    /// Serialize the entry as `KEY=VALUE`.
    pub fn render(&self) -> (r: String)
        ensures
            r@ == self.spec_render(),
    {
        let mut r = String::from_str(self.key);
        r.append("=");
        r.append(self.value);
        proof {
            assert(r@ =~= self.spec_render());
        }
        r
    }

    /// A builder with neither key nor value set.
    pub fn builder() -> (b: EnvironmentVariableBuilder<'a>)
        ensures
            b.key is None,
            b.value is None,
    {
        EnvironmentVariableBuilder::default()
    }
}

/// Staged assembly of an [`EnvironmentVariable`]; both fields must be
/// supplied before `build`.
pub struct EnvironmentVariableBuilder<'a> {
    pub key: Option<&'a str>,
    pub value: Option<&'a str>,
}

impl<'a> Default for EnvironmentVariableBuilder<'a> {
    /// Same as [`EnvironmentVariableBuilder::new`].
    fn default() -> (b: Self)
        ensures
            b.key is None,
            b.value is None,
    {
        Self::new()
    }
}

impl<'a> EnvironmentVariableBuilder<'a> {
    /// Start with neither key nor value set.
    pub fn new() -> (b: Self)
        ensures
            b.key is None,
            b.value is None,
    {
        EnvironmentVariableBuilder { key: None, value: None }
    }

    /// Set the key.
    pub fn key(self, key: &'a str) -> (b: Self)
        ensures
            b == (Self { key: Some(key), ..self }),
    {
        Self { key: Some(key), ..self }
    }

    /// Set the value.
    pub fn value(self, value: &'a str) -> (b: Self)
        ensures
            b == (Self { value: Some(value), ..self }),
    {
        Self { value: Some(value), ..self }
    }

    /// Materialize the entry.  Calling `build` before both fields are set
    /// is a programming error, so it is ruled out here rather than handled
    /// at run time.
    pub fn build(self) -> (e: EnvironmentVariable<'a>)
        requires
            self.key is Some,
            self.value is Some,
        ensures
            e.key == self.key->0,
            e.value == self.value->0,
    {
        EnvironmentVariable { key: self.key.unwrap(), value: self.value.unwrap() }
    }
}

/// The line one environment entry serializes to, quoted.
pub open spec fn spec_env_line<'a>(e: EnvironmentVariable<'a>) -> Seq<char> {
    "Environment=\""@ + e.spec_render() + "\"\n"@
}

/// The lines a list of environment entries serializes to, one per entry,
/// in the order supplied.
pub open spec fn spec_env_lines<'a>(envs: Seq<EnvironmentVariable<'a>>) -> Seq<char>
    decreases envs.len(),
{
    if envs.len() == 0 {
        Seq::<char>::empty()
    } else {
        spec_env_lines(envs.drop_last()) + spec_env_line(envs.last())
    }
}

/// Serialize environment entries, one quoted line per entry, in the order
/// supplied.
fn render_env_lines<'a>(envs: &Vec<EnvironmentVariable<'a>>) -> (r: String)
    ensures
        r@ == spec_env_lines(envs@),
{
    let mut r = String::new();
    let mut i: usize = 0;
    while i < envs.len()
        invariant
            i <= envs@.len(),
            r@ == spec_env_lines(envs@.take(i as int)),
        decreases envs@.len() - i,
    {
        r.append("Environment=\"");
        let entry = envs[i].render();
        r.append(entry.as_str());
        r.append("\"\n");
        i += 1;
        proof {
            let k = i as int;
            assert(envs@.take(k).drop_last() =~= envs@.take(k - 1));
            assert(r@ =~= spec_env_lines(envs@.take(k)));
        }
    }
    proof {
        assert(envs@.take(envs@.len() as int) =~= envs@);
    }
    r
}

/// The `[Service]` stanza: process kind, command line, restart behaviour,
/// optional execution context, and environment entries.
pub struct ServiceConfiguration<'a> {
    pub ty: ServiceType,
    pub exec_start: Vec<&'a str>,
    pub restart_policy: RestartPolicy,
    /// A unit-less count of seconds, or a time span such as `5min 20s`.
    pub restart_sec: &'a str,
    pub working_directory: Option<&'a str>,
    pub user: Option<&'a str>,
    pub group: Option<&'a str>,
    pub envs: Vec<EnvironmentVariable<'a>>,
}

impl<'a> ServiceConfiguration<'a> {
    /// The text this stanza serializes to; the three optional fields are
    /// left out entirely when absent.
    pub open spec fn spec_render(self) -> Seq<char> {
        "[Service]\n"@ + (match self.working_directory {
            Some(w) => "WorkingDirectory="@ + w@ + "\n"@,
            None => Seq::<char>::empty(),
        }) + (match self.user {
            Some(u) => "User="@ + u@ + "\n"@,
            None => Seq::<char>::empty(),
        }) + (match self.group {
            Some(g) => "Group="@ + g@ + "\n"@,
            None => Seq::<char>::empty(),
        }) + spec_env_lines(self.envs@) + "ExecStart="@ + spec_join(
            views_of_strs(self.exec_start@),
            " "@,
        ) + "\nRestart="@ + self.restart_policy.spec_render() + "\nRestartSec="@
            + self.restart_sec@ + "\n"@
    }

    /// Serialize the stanza; deterministic and total.
    #[verifier::rlimit(50)]
    pub fn render(&self) -> (r: String)
        ensures
            r@ == self.spec_render(),
    {
        let mut r = String::from_str("[Service]\n");
        if let Some(working_directory) = self.working_directory {
            r.append("WorkingDirectory=");
            r.append(working_directory);
            r.append("\n");
        }
        if let Some(user) = self.user {
            r.append("User=");
            r.append(user);
            r.append("\n");
        }
        if let Some(group) = self.group {
            r.append("Group=");
            r.append(group);
            r.append("\n");
        }
        proof {
            assert(r@ =~= "[Service]\n"@ + (match self.working_directory {
                Some(w) => "WorkingDirectory="@ + w@ + "\n"@,
                None => Seq::<char>::empty(),
            }) + (match self.user {
                Some(u) => "User="@ + u@ + "\n"@,
                None => Seq::<char>::empty(),
            }) + (match self.group {
                Some(g) => "Group="@ + g@ + "\n"@,
                None => Seq::<char>::empty(),
            }));
        }
        let envs = render_env_lines(&self.envs);
        r.append(envs.as_str());
        r.append("ExecStart=");
        let exec_start = join_strs(&self.exec_start, " ");
        r.append(exec_start.as_str());
        r.append("\nRestart=");
        let policy = self.restart_policy.render();
        r.append(policy.as_str());
        r.append("\nRestartSec=");
        r.append(self.restart_sec);
        r.append("\n");
        proof {
            assert(r@ =~= self.spec_render());
        }
        r
    }

    /// A builder with the defaults: a simple service, no restart, a 100ms
    /// restart delay, and everything else empty or absent.
    pub fn builder() -> (b: ServiceConfigurationBuilder<'a>)
        ensures
            b.is_default(),
    {
        ServiceConfigurationBuilder::default()
    }
}

/// Staged assembly of a [`ServiceConfiguration`]; every method returns a
/// new builder with one field replaced or one entry appended.
pub struct ServiceConfigurationBuilder<'a> {
    pub ty: ServiceType,
    pub exec_start: Vec<&'a str>,
    pub restart_policy: RestartPolicy,
    pub restart_sec: &'a str,
    pub working_directory: Option<&'a str>,
    pub user: Option<&'a str>,
    pub group: Option<&'a str>,
    pub envs: Vec<EnvironmentVariable<'a>>,
}

impl<'a> Default for ServiceConfigurationBuilder<'a> {
    /// The defaults: a simple service, no restart, a 100ms restart delay,
    /// no command line, no execution context, no environment.
    fn default() -> (b: Self)
        ensures
            b.is_default(),
    {
        ServiceConfigurationBuilder {
            ty: ServiceType::Simple,
            exec_start: Vec::new(),
            restart_policy: RestartPolicy::No,
            restart_sec: "100ms",
            working_directory: None,
            user: None,
            group: None,
            envs: Vec::new(),
        }
    }
}

impl<'a> ServiceConfigurationBuilder<'a> {
    /// Whether the builder still holds the defaults: a simple service, no
    /// restart, a 100ms restart delay, and everything else empty or
    /// absent.
    pub open spec fn is_default(self) -> bool {
        &&& self.ty == ServiceType::Simple
        &&& self.exec_start@ == Seq::<&'a str>::empty()
        &&& self.restart_policy == RestartPolicy::No
        &&& self.restart_sec@ == "100ms"@
        &&& self.working_directory is None
        &&& self.user is None
        &&& self.group is None
        &&& self.envs@ == Seq::<EnvironmentVariable<'a>>::empty()
    }

    /// Replace the service kind.
    pub fn ty(self, ty: ServiceType) -> (b: Self)
        ensures
            b == (Self { ty, ..self }),
    {
        Self { ty, ..self }
    }

    /// Replace the command line: the executable and its arguments.
    pub fn exec_start(self, exec_start: Vec<&'a str>) -> (b: Self)
        ensures
            b == (Self { exec_start, ..self }),
    {
        Self { exec_start, ..self }
    }

    /// Replace the restart policy.
    pub fn restart_policy(self, restart_policy: RestartPolicy) -> (b: Self)
        ensures
            b == (Self { restart_policy, ..self }),
    {
        Self { restart_policy, ..self }
    }

    /// Replace the restart delay.
    pub fn restart_sec(self, restart_sec: &'a str) -> (b: Self)
        ensures
            b == (Self { restart_sec, ..self }),
    {
        Self { restart_sec, ..self }
    }

    /// Set the working directory.
    pub fn working_directory(self, working_directory: &'a str) -> (b: Self)
        ensures
            b == (Self { working_directory: Some(working_directory), ..self }),
    {
        Self { working_directory: Some(working_directory), ..self }
    }

    /// Set the user to run as.
    pub fn user(self, user: &'a str) -> (b: Self)
        ensures
            b == (Self { user: Some(user), ..self }),
    {
        Self { user: Some(user), ..self }
    }

    /// Set the group to run as.
    pub fn group(self, group: &'a str) -> (b: Self)
        ensures
            b == (Self { group: Some(group), ..self }),
    {
        Self { group: Some(group), ..self }
    }

    /// Append one environment entry.
    pub fn env(self, key: &'a str, value: &'a str) -> (b: Self)
        ensures
            b.ty == self.ty,
            b.exec_start == self.exec_start,
            b.restart_policy == self.restart_policy,
            b.restart_sec == self.restart_sec,
            b.working_directory == self.working_directory,
            b.user == self.user,
            b.group == self.group,
            b.envs@ == self.envs@.push((EnvironmentVariable { key, value })),
    {
        let entry = EnvironmentVariable::builder().key(key).value(value).build();
        let mut b = self;
        b.envs.push(entry);
        b
    }

    /// Materialize the stanza.
    pub fn build(self) -> (s: ServiceConfiguration<'a>)
        ensures
            s.ty == self.ty,
            s.exec_start == self.exec_start,
            s.restart_policy == self.restart_policy,
            s.restart_sec == self.restart_sec,
            s.working_directory == self.working_directory,
            s.user == self.user,
            s.group == self.group,
            s.envs == self.envs,
    {
        let ServiceConfigurationBuilder {
            ty,
            exec_start,
            restart_policy,
            restart_sec,
            working_directory,
            user,
            group,
            envs,
        } = self;
        ServiceConfiguration {
            ty,
            exec_start,
            restart_policy,
            restart_sec,
            working_directory,
            user,
            group,
            envs,
        }
    }
}

/// The `[Install]` stanza: where the unit is wanted when enabled.
pub struct InstallConfiguration<'a> {
    pub wanted_by: Vec<&'a str>,
}

impl<'a> InstallConfiguration<'a> {
    /// The text this stanza serializes to.
    pub open spec fn spec_render(self) -> Seq<char> {
        "[Install]\nWantedBy="@ + spec_join(views_of_strs(self.wanted_by@), " "@) + "\n"@
    }

    /// Serialize the stanza; deterministic and total.
    pub fn render(&self) -> (r: String)
        ensures
            r@ == self.spec_render(),
    {
        let mut r = String::from_str("[Install]\nWantedBy=");
        let wanted_by = join_strs(&self.wanted_by, " ");
        r.append(wanted_by.as_str());
        r.append("\n");
        proof {
            assert(r@ =~= self.spec_render());
        }
        r
    }

    /// A builder with no target set yet; a unit built like this gets the
    /// conventional multi-user target.
    pub fn builder() -> (b: InstallConfigurationBuilder<'a>)
        ensures
            b.wanted_by@ == Seq::<&'a str>::empty(),
    {
        InstallConfigurationBuilder::default()
    }
}

/// Staged assembly of an [`InstallConfiguration`].  The builder collects
/// the caller's targets; the conventional multi-user default applies at
/// `build` only when the caller never set one.
pub struct InstallConfigurationBuilder<'a> {
    pub wanted_by: Vec<&'a str>,
}

impl<'a> Default for InstallConfigurationBuilder<'a> {
    /// No target set yet.
    fn default() -> (b: Self)
        ensures
            b.wanted_by@ == Seq::<&'a str>::empty(),
    {
        InstallConfigurationBuilder { wanted_by: Vec::new() }
    }
}

impl<'a> InstallConfigurationBuilder<'a> {
    /// Append one target to the `WantedBy=` list; the first one supplied
    /// stands in place of the default.
    pub fn wanted_by(self, wanted_by: &'a str) -> (b: Self)
        ensures
            b.wanted_by@ == self.wanted_by@.push(wanted_by),
    {
        let mut b = self;
        b.wanted_by.push(wanted_by);
        b
    }

    /// Materialize the stanza: the caller's targets as supplied, or the
    /// conventional multi-user target when the caller never set one.
    pub fn build(self) -> (i: InstallConfiguration<'a>)
        ensures
            self.wanted_by@.len() > 0 ==> i.wanted_by == self.wanted_by,
            self.wanted_by@.len() == 0 ==> {
                &&& i.wanted_by@.len() == 1
                &&& i.wanted_by@[0]@ == "multi-user.target"@
            },
    {
        let InstallConfigurationBuilder { wanted_by } = self;
        if wanted_by.len() == 0 {
            let mut defaults: Vec<&'a str> = Vec::new();
            defaults.push("multi-user.target");
            InstallConfiguration { wanted_by: defaults }
        } else {
            InstallConfiguration { wanted_by }
        }
    }
}

/// A whole service unit file: the `[Unit]`, `[Service]` and `[Install]`
/// stanzas, serialized in that order with a blank line between them.
pub struct ServiceUnitConfiguration<'a> {
    pub unit: UnitConfiguration<'a>,
    pub service: ServiceConfiguration<'a>,
    pub install: InstallConfiguration<'a>,
}

impl<'a> ServiceUnitConfiguration<'a> {
    /// The text the whole unit file serializes to.
    pub open spec fn spec_render(self) -> Seq<char> {
        self.unit.spec_render() + "\n"@ + self.service.spec_render() + "\n"@
            + self.install.spec_render()
    }

    /// Serialize the whole unit file; deterministic and total, so equal
    /// values always give byte-for-byte equal text.
    pub fn render(&self) -> (r: String)
        ensures
            r@ == self.spec_render(),
    {
        let mut r = self.unit.render();
        r.append("\n");
        let service = self.service.render();
        r.append(service.as_str());
        r.append("\n");
        let install = self.install.render();
        r.append(install.as_str());
        proof {
            assert(r@ =~= self.spec_render());
        }
        r
    }

    /// A builder holding the three stanza builders, each at its defaults.
    pub fn builder() -> (b: ServiceUnitConfigurationBuilder<'a>)
        ensures
            b.unit.description@ == ""@,
            b.unit.after@ == Seq::<&'a str>::empty(),
            b.unit.wants@ == Seq::<&'a str>::empty(),
            b.service.is_default(),
            b.install.wanted_by@ == Seq::<&'a str>::empty(),
    {
        ServiceUnitConfigurationBuilder::default()
    }
}

/// Staged assembly of a [`ServiceUnitConfiguration`] out of the three
/// stanza builders.
pub struct ServiceUnitConfigurationBuilder<'a> {
    pub unit: UnitConfigurationBuilder<'a>,
    pub service: ServiceConfigurationBuilder<'a>,
    pub install: InstallConfigurationBuilder<'a>,
}

impl<'a> Default for ServiceUnitConfigurationBuilder<'a> {
    /// Every stanza builder at its defaults.
    fn default() -> (b: Self)
        ensures
            b.unit.description@ == ""@,
            b.unit.after@ == Seq::<&'a str>::empty(),
            b.unit.wants@ == Seq::<&'a str>::empty(),
            b.service.is_default(),
            b.install.wanted_by@ == Seq::<&'a str>::empty(),
    {
        ServiceUnitConfigurationBuilder {
            unit: UnitConfigurationBuilder::default(),
            service: ServiceConfigurationBuilder::default(),
            install: InstallConfigurationBuilder::default(),
        }
    }
}

impl<'a> ServiceUnitConfigurationBuilder<'a> {
    /// Replace the `[Unit]` stanza builder.
    pub fn unit(self, unit: UnitConfigurationBuilder<'a>) -> (b: Self)
        ensures
            b.unit == unit,
            b.service == self.service,
            b.install == self.install,
    {
        Self { unit, ..self }
    }

    /// Replace the `[Service]` stanza builder.
    pub fn service(self, service: ServiceConfigurationBuilder<'a>) -> (b: Self)
        ensures
            b.unit == self.unit,
            b.service == service,
            b.install == self.install,
    {
        Self { service, ..self }
    }

    /// Replace the `[Install]` stanza builder.
    pub fn install(self, install: InstallConfigurationBuilder<'a>) -> (b: Self)
        ensures
            b.unit == self.unit,
            b.service == self.service,
            b.install == install,
    {
        Self { install, ..self }
    }

    /// Materialize the whole unit file value, building every stanza.
    pub fn build(self) -> (c: ServiceUnitConfiguration<'a>)
        ensures
            c.unit.description == self.unit.description,
            c.unit.after == self.unit.after,
            c.unit.wants == self.unit.wants,
            c.service.ty == self.service.ty,
            c.service.exec_start == self.service.exec_start,
            c.service.restart_policy == self.service.restart_policy,
            c.service.restart_sec == self.service.restart_sec,
            c.service.working_directory == self.service.working_directory,
            c.service.user == self.service.user,
            c.service.group == self.service.group,
            c.service.envs == self.service.envs,
            self.install.wanted_by@.len() > 0 ==> c.install.wanted_by
                == self.install.wanted_by,
            self.install.wanted_by@.len() == 0 ==> {
                &&& c.install.wanted_by@.len() == 1
                &&& c.install.wanted_by@[0]@ == "multi-user.target"@
            },
    {
        let unit = self.unit.build();
        let service = self.service.build();
        let install = self.install.build();
        ServiceUnitConfiguration { unit, service, install }
    }
}

} // verus!
