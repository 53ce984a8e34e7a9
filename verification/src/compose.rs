//! The parts of a compose file that the tool reads, held as plain values.
//!
//! The services of a file are a list of `(name, service)` pairs in the order the
//! file declares them; a service written with no body has no value.
use crate::text::{copy_names, copy_opt, names, opt_text, str_eq};
use vstd::prelude::*;

verus! {

/// How a service's image is built.
#[derive(Debug)]
pub enum ComposeBuild {
    /// `build: <path>`
    Simple(String),
    /// `build:` written as a map; holds its `context`, the folder to build.
    Advanced(String),
}

/// The command of a health check.
#[derive(Debug)]
pub enum HealthcheckTest {
    Single(String),
    Multiple(Vec<String>),
}

/// A service's `healthcheck` section.
#[derive(Debug)]
pub struct ComposeHealthcheck {
    pub test: Option<HealthcheckTest>,
    pub interval: Option<String>,
    pub timeout: Option<String>,
    pub retries: i64,
    pub start_period: Option<String>,
    pub start_interval: Option<String>,
    pub disable: bool,
}

/// A service's `ports` section.
#[derive(Debug)]
pub enum ComposePorts {
    /// `"host:container"` strings.
    Short(Vec<String>),
    /// Port mappings written as maps.
    Long,
}

/// A service's `environment` section.
#[derive(Debug)]
pub enum ComposeEnvironment {
    /// `NAME=value` strings.
    List(Vec<String>),
    /// A map of names to values.
    KvPair,
}

/// One service of a compose file.
#[derive(Debug)]
pub struct ComposeService {
    /// The services this one depends on, in the order the file lists them.
    pub depends_on: Vec<String>,
    pub build_: Option<ComposeBuild>,
    pub image: Option<String>,
    pub container_name: Option<String>,
    pub healthcheck: Option<ComposeHealthcheck>,
    pub ports: ComposePorts,
    pub environment: ComposeEnvironment,
}

/// The text form of a health-check command.
pub enum HealthcheckTestView {
    Single(Seq<char>),
    Multiple(Seq<Seq<char>>),
}

/// The text form of a health check.
pub struct HealthcheckView {
    pub test: Option<HealthcheckTestView>,
    pub interval: Option<Seq<char>>,
    pub timeout: Option<Seq<char>>,
    pub retries: i64,
    pub start_period: Option<Seq<char>>,
    pub start_interval: Option<Seq<char>>,
    pub disable: bool,
}

impl View for HealthcheckTest {
    type V = HealthcheckTestView;

    open spec fn view(&self) -> HealthcheckTestView {
        match self {
            HealthcheckTest::Single(s) => HealthcheckTestView::Single(s@),
            HealthcheckTest::Multiple(v) => HealthcheckTestView::Multiple(names(v@)),
        }
    }
}

/// The text form of an optional health-check command.
pub open spec fn opt_test_view(t: Option<HealthcheckTest>) -> Option<HealthcheckTestView> {
    match t {
        Some(t) => Some(t@),
        None => None,
    }
}

impl View for ComposeHealthcheck {
    type V = HealthcheckView;

    open spec fn view(&self) -> HealthcheckView {
        HealthcheckView {
            test: opt_test_view(self.test),
            interval: opt_text(self.interval),
            timeout: opt_text(self.timeout),
            retries: self.retries,
            start_period: opt_text(self.start_period),
            start_interval: opt_text(self.start_interval),
            disable: self.disable,
        }
    }
}

/// The text form of an optional health check.
pub open spec fn opt_health_view(h: Option<ComposeHealthcheck>) -> Option<HealthcheckView> {
    match h {
        Some(h) => Some(h@),
        None => None,
    }
}

/// The text form of a build setting.
pub enum ComposeBuildView {
    Simple(Seq<char>),
    Advanced(Seq<char>),
}

impl View for ComposeBuild {
    type V = ComposeBuildView;

    open spec fn view(&self) -> ComposeBuildView {
        match self {
            ComposeBuild::Simple(p) => ComposeBuildView::Simple(p@),
            ComposeBuild::Advanced(c) => ComposeBuildView::Advanced(c@),
        }
    }
}

/// The text form of an optional build setting.
pub open spec fn opt_build_view(b: Option<ComposeBuild>) -> Option<ComposeBuildView> {
    match b {
        Some(b) => Some(b@),
        None => None,
    }
}

/// The text form of a `ports` section.
pub enum ComposePortsView {
    Short(Seq<Seq<char>>),
    Long,
}

impl View for ComposePorts {
    type V = ComposePortsView;

    open spec fn view(&self) -> ComposePortsView {
        match self {
            ComposePorts::Short(v) => ComposePortsView::Short(names(v@)),
            ComposePorts::Long => ComposePortsView::Long,
        }
    }
}

/// The text form of an `environment` section.
pub enum ComposeEnvironmentView {
    List(Seq<Seq<char>>),
    KvPair,
}

impl View for ComposeEnvironment {
    type V = ComposeEnvironmentView;

    open spec fn view(&self) -> ComposeEnvironmentView {
        match self {
            ComposeEnvironment::List(v) => ComposeEnvironmentView::List(names(v@)),
            ComposeEnvironment::KvPair => ComposeEnvironmentView::KvPair,
        }
    }
}

/// The text form of a service.
pub struct ComposeServiceView {
    pub depends_on: Seq<Seq<char>>,
    pub build_: Option<ComposeBuildView>,
    pub image: Option<Seq<char>>,
    pub container_name: Option<Seq<char>>,
    pub healthcheck: Option<HealthcheckView>,
    pub ports: ComposePortsView,
    pub environment: ComposeEnvironmentView,
}

impl View for ComposeService {
    type V = ComposeServiceView;

    open spec fn view(&self) -> ComposeServiceView {
        ComposeServiceView {
            depends_on: names(self.depends_on@),
            build_: opt_build_view(self.build_),
            image: opt_text(self.image),
            container_name: opt_text(self.container_name),
            healthcheck: opt_health_view(self.healthcheck),
            ports: self.ports@,
            environment: self.environment@,
        }
    }
}

/// The text form of an optional service.
pub open spec fn opt_service_view(s: Option<ComposeService>) -> Option<ComposeServiceView> {
    match s {
        Some(s) => Some(s@),
        None => None,
    }
}

/// The text form of the services of a file.
pub open spec fn services_view(services: Seq<(String, Option<ComposeService>)>) -> Seq<
    (Seq<char>, Option<ComposeServiceView>),
> {
    services.map_values(|e: (String, Option<ComposeService>)| (e.0@, opt_service_view(e.1)))
}

impl HealthcheckTest {
    /// A copy of the command.
    pub fn duplicate(&self) -> (res: HealthcheckTest)
        ensures
            res@ == self@,
    {
        match self {
            HealthcheckTest::Single(s) => HealthcheckTest::Single(s.clone()),
            HealthcheckTest::Multiple(v) => HealthcheckTest::Multiple(copy_names(v)),
        }
    }
}

impl ComposeHealthcheck {
    /// A copy of the health check.
    pub fn duplicate(&self) -> (res: ComposeHealthcheck)
        ensures
            res@ == self@,
    {
        let test = match &self.test {
            Some(t) => Some(t.duplicate()),
            None => None,
        };
        ComposeHealthcheck {
            test,
            interval: copy_opt(&self.interval),
            timeout: copy_opt(&self.timeout),
            retries: self.retries,
            start_period: copy_opt(&self.start_period),
            start_interval: copy_opt(&self.start_interval),
            disable: self.disable,
        }
    }
}

/// A copy of an optional health check.
pub fn copy_opt_health(h: &Option<ComposeHealthcheck>) -> (res: Option<ComposeHealthcheck>)
    ensures
        opt_health_view(res) == opt_health_view(*h),
{
    match h {
        Some(h) => Some(h.duplicate()),
        None => None,
    }
}

/// The names of the services, in the order of the file.
pub open spec fn service_keys(services: Seq<(String, Option<ComposeService>)>) -> Seq<Seq<char>> {
    services.map_values(|e: (String, Option<ComposeService>)| e.0@)
}

/// The entry the file gives for a name: the last pair with that name, as a map
/// that keeps the first position of a name and its last value.
pub open spec fn lookup_service(services: Seq<(String, Option<ComposeService>)>, name: Seq<char>) -> Option<
    Option<ComposeService>,
>
    decreases services.len(),
{
    if services.len() == 0 {
        None
    } else if services.last().0@ == name {
        Some(services.last().1)
    } else {
        lookup_service(services.drop_last(), name)
    }
}

/// The names a service depends on.
pub open spec fn dependencies(service: ComposeService) -> Seq<Seq<char>> {
    names(service.depends_on@)
}

/// A name found in the file is one of its keys.
pub proof fn lemma_lookup_in_keys(services: Seq<(String, Option<ComposeService>)>, name: Seq<char>)
    ensures
        lookup_service(services, name) is Some <==> service_keys(services).contains(name),
    decreases services.len(),
{
    if services.len() > 0 {
        lemma_lookup_in_keys(services.drop_last(), name);
        let ks = service_keys(services);
        let ks0 = service_keys(services.drop_last());
        assert(ks0 =~= ks.drop_last());
        if ks.contains(name) && services.last().0@ != name {
            let k = choose|k: int| 0 <= k < ks.len() && ks[k] == name;
            assert(k < ks.len() - 1);
            assert(ks0[k] == name);
        }
        if ks0.contains(name) {
            let k = choose|k: int| 0 <= k < ks0.len() && ks0[k] == name;
            assert(ks[k] == name);
        }
        if services.last().0@ == name {
            assert(ks[ks.len() - 1] == name);
        }
    }
}

/// The entry of the file for a name, as `IndexMap::get` gives it.
pub fn get_service<'a>(services: &'a Vec<(String, Option<ComposeService>)>, name: &str) -> (res:
    Option<&'a Option<ComposeService>>)
    ensures
        match lookup_service(services@, name@) {
            Some(s) => res is Some && *res->Some_0 == s,
            None => res is None,
        },
{
    let mut i = services.len();
    assert(services@.subrange(0, i as int) =~= services@);
    while i > 0
        invariant
            i <= services.len(),
            lookup_service(services@, name@) == lookup_service(services@.subrange(0, i as int), name@),
        decreases i,
    {
        let ghost pre = services@.subrange(0, i as int);
        assert(pre.drop_last() =~= services@.subrange(0, i - 1));
        if str_eq(services[i - 1].0.as_str(), name) {
            return Some(&services[i - 1].1);
        }
        i = i - 1;
    }
    None
}

} // verus!
