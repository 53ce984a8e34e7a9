//! Reading a compose file's text: the YAML is parsed by `docker_compose_types`
//! through `serde_yaml`, and each service is copied into the plain form of
//! `compose`, field by field.
//!
//! Every wrapper below parses the same text with the same function and copies
//! one part of what it gives, so all of them are stated over one name,
//! `compose_yaml`: the services the text parses to, or the parser's message.
use crate::cli_errors::CliErrors;
use crate::compose::{
    opt_test_view, services_view, ComposeBuild, ComposeEnvironment, ComposeHealthcheck,
    ComposePorts, ComposeService, ComposeServiceView, HealthcheckTest,
};
use crate::compose_parser::DockerImageDetails;
use crate::name_map::NameMap;
use crate::service_sort::{construct_docker_image_details_map, details_map, spec_sort_services};
use crate::service_view_laws::lemma_plan_depends_on_view;
use crate::text::{names, opt_text};
use vstd::prelude::*;

verus! {

/// What `serde_yaml::from_str::<docker_compose_types::Compose>` gives for a
/// text: its services in the order of the file (`Services` holds an
/// `IndexMap`), each name with its service as plain values (`None` for a
/// service written with no body), or the parser's message.
pub uninterp spec fn compose_yaml(text: Seq<char>) -> Result<
    Seq<(Seq<char>, Option<ComposeServiceView>)>,
    Seq<char>,
>;

/// The `i`-th service of a text that parses holds a body.
pub open spec fn yaml_has_service(text: Seq<char>, i: int) -> bool {
    &&& compose_yaml(text) is Ok
    &&& 0 <= i < compose_yaml(text)->Ok_0.len()
    &&& compose_yaml(text)->Ok_0[i].1 is Some
}

/// The body of the `i`-th service of a text that parses.
pub open spec fn yaml_service(text: Seq<char>, i: int) -> ComposeServiceView {
    compose_yaml(text)->Ok_0[i].1->Some_0
}

/// Calls `serde_yaml::from_str::<Compose>` and copies out the names of the
/// services, in the order of the file, each with whether it has a body; an
/// error is given as its text.
#[verifier::external_body]
fn parse_compose_entries(text: &str) -> (res: Result<Vec<(String, bool)>, String>)
    ensures
        match res {
            Ok(v) => {
                &&& compose_yaml(text@) is Ok
                &&& v@.len() == compose_yaml(text@)->Ok_0.len()
                &&& forall|i: int|
                    0 <= i < v@.len() ==> #[trigger] v@[i].0@ == compose_yaml(text@)->Ok_0[i].0
                        && v@[i].1 == (compose_yaml(text@)->Ok_0[i].1 is Some)
            },
            Err(e) => compose_yaml(text@) == Err::<
                Seq<(Seq<char>, Option<ComposeServiceView>)>,
                Seq<char>,
            >(e@),
        },
{
    match serde_yaml::from_str::<docker_compose_types::Compose>(text) {
        Ok(compose) => {
            let mut entries = Vec::new();
            for (name, service) in compose.services.0.iter() {
                entries.push((name.clone(), service.is_some()));
            }
            Ok(entries)
        },
        Err(e) => Err(e.to_string()),
    }
}

/// Parses the text with `serde_yaml::from_str::<Compose>` and copies the
/// `depends_on` of its `i`-th service: the list as written, or the names of
/// the conditional form in the order of the file.
#[verifier::external_body]
fn yaml_service_depends_on(text: &str, i: usize) -> (res: Vec<String>)
    requires
        yaml_has_service(text@, i as int),
    ensures
        names(res@) == yaml_service(text@, i as int).depends_on,
{
    match serde_yaml::from_str::<docker_compose_types::Compose>(text) {
        Ok(c) => match c.services.0.get_index(i) {
            Some((_, Some(s))) => match &s.depends_on {
                docker_compose_types::DependsOnOptions::Simple(v) => v.clone(),
                docker_compose_types::DependsOnOptions::Conditional(m) => m.keys().cloned().collect(),
            },
            _ => Vec::new(),
        },
        Err(_) => Vec::new(),
    }
}

/// Parses the text and copies the `build` of its `i`-th service: the path of
/// the short form, or the `context` of the long form.
#[verifier::external_body]
fn yaml_service_build(text: &str, i: usize) -> (res: Option<ComposeBuild>)
    requires
        yaml_has_service(text@, i as int),
    ensures
        crate::compose::opt_build_view(res) == yaml_service(text@, i as int).build_,
{
    match serde_yaml::from_str::<docker_compose_types::Compose>(text) {
        Ok(c) => match c.services.0.get_index(i) {
            Some((_, Some(s))) => match &s.build_ {
                Some(docker_compose_types::BuildStep::Simple(p)) => Some(ComposeBuild::Simple(p.clone())),
                Some(docker_compose_types::BuildStep::Advanced(a)) => Some(ComposeBuild::Advanced(a.context.clone())),
                None => None,
            },
            _ => None,
        },
        Err(_) => None,
    }
}

/// Parses the text and copies the `image` of its `i`-th service.
#[verifier::external_body]
fn yaml_service_image(text: &str, i: usize) -> (res: Option<String>)
    requires
        yaml_has_service(text@, i as int),
    ensures
        opt_text(res) == yaml_service(text@, i as int).image,
{
    match serde_yaml::from_str::<docker_compose_types::Compose>(text) {
        Ok(c) => match c.services.0.get_index(i) {
            Some((_, Some(s))) => s.image.clone(),
            _ => None,
        },
        Err(_) => None,
    }
}

/// Parses the text and copies the `container_name` of its `i`-th service.
#[verifier::external_body]
fn yaml_service_container_name(text: &str, i: usize) -> (res: Option<String>)
    requires
        yaml_has_service(text@, i as int),
    ensures
        opt_text(res) == yaml_service(text@, i as int).container_name,
{
    match serde_yaml::from_str::<docker_compose_types::Compose>(text) {
        Ok(c) => match c.services.0.get_index(i) {
            Some((_, Some(s))) => s.container_name.clone(),
            _ => None,
        },
        Err(_) => None,
    }
}

/// Parses the text and copies the settings of the `healthcheck` of its
/// `i`-th service, when it has one: interval, timeout, retries, start period,
/// start interval and `disable`.
#[verifier::external_body]
fn yaml_service_healthcheck_settings(text: &str, i: usize) -> (res: Option<
    (Option<String>, Option<String>, i64, Option<String>, Option<String>, bool),
>)
    requires
        yaml_has_service(text@, i as int),
    ensures
        match yaml_service(text@, i as int).healthcheck {
            Some(h) => res matches Some((iv, to, r, sp, si, d)) && opt_text(iv) == h.interval
                && opt_text(to) == h.timeout && r == h.retries && opt_text(sp) == h.start_period
                && opt_text(si) == h.start_interval && d == h.disable,
            None => res is None,
        },
{
    match serde_yaml::from_str::<docker_compose_types::Compose>(text) {
        Ok(c) => match c.services.0.get_index(i) {
            Some((_, Some(s))) => s.healthcheck.as_ref().map(|h| (h.interval.clone(), h.timeout.clone(),
                h.retries, h.start_period.clone(), h.start_interval.clone(), h.disable)),
            _ => None,
        },
        Err(_) => None,
    }
}

/// Parses the text and copies the command of the `healthcheck` of its `i`-th
/// service.
#[verifier::external_body]
fn yaml_service_healthcheck_test(text: &str, i: usize) -> (res: Option<HealthcheckTest>)
    requires
        yaml_has_service(text@, i as int),
    ensures
        match yaml_service(text@, i as int).healthcheck {
            Some(h) => opt_test_view(res) == h.test,
            None => res is None,
        },
{
    match serde_yaml::from_str::<docker_compose_types::Compose>(text) {
        Ok(c) => match c.services.0.get_index(i).and_then(|(_, s)| s.as_ref()).and_then(|s| s.healthcheck.as_ref()) {
            Some(h) => match &h.test {
                Some(docker_compose_types::HealthcheckTest::Single(t)) => Some(HealthcheckTest::Single(t.clone())),
                Some(docker_compose_types::HealthcheckTest::Multiple(v)) => Some(HealthcheckTest::Multiple(v.clone())),
                None => None,
            },
            None => None,
        },
        Err(_) => None,
    }
}

/// Parses the text and copies the `ports` of its `i`-th service: the short
/// strings, or that the long form was used.
#[verifier::external_body]
fn yaml_service_ports(text: &str, i: usize) -> (res: ComposePorts)
    requires
        yaml_has_service(text@, i as int),
    ensures
        res@ == yaml_service(text@, i as int).ports,
{
    match serde_yaml::from_str::<docker_compose_types::Compose>(text) {
        Ok(c) => match c.services.0.get_index(i) {
            Some((_, Some(s))) => match &s.ports {
                docker_compose_types::Ports::Short(v) => ComposePorts::Short(v.clone()),
                docker_compose_types::Ports::Long(_) => ComposePorts::Long,
            },
            _ => ComposePorts::Long,
        },
        Err(_) => ComposePorts::Long,
    }
}

/// Parses the text and copies the `environment` of its `i`-th service: the
/// `NAME=value` list, or that the map form was used.
#[verifier::external_body]
fn yaml_service_environment(text: &str, i: usize) -> (res: ComposeEnvironment)
    requires
        yaml_has_service(text@, i as int),
    ensures
        res@ == yaml_service(text@, i as int).environment,
{
    match serde_yaml::from_str::<docker_compose_types::Compose>(text) {
        Ok(c) => match c.services.0.get_index(i) {
            Some((_, Some(s))) => match &s.environment {
                docker_compose_types::Environment::List(v) => ComposeEnvironment::List(v.clone()),
                docker_compose_types::Environment::KvPair(_) => ComposeEnvironment::KvPair,
            },
            _ => ComposeEnvironment::KvPair,
        },
        Err(_) => ComposeEnvironment::KvPair,
    }
}

/// The plain form of a service from the parts copied out of it: each part in
/// its field, and the health check's command kept with its settings, the
/// health check being present exactly when its settings are.
fn service_model(
    depends_on: Vec<String>,
    build_: Option<ComposeBuild>,
    image: Option<String>,
    container_name: Option<String>,
    healthcheck_settings: Option<(Option<String>, Option<String>, i64, Option<String>, Option<String>, bool)>,
    healthcheck_test: Option<HealthcheckTest>,
    ports: ComposePorts,
    environment: ComposeEnvironment,
) -> (res: ComposeService)
    ensures
        res.depends_on == depends_on,
        res.build_ == build_,
        res.image == image,
        res.container_name == container_name,
        res.ports == ports,
        res.environment == environment,
        match healthcheck_settings {
            Some((interval, timeout, retries, start_period, start_interval, disable)) => res.healthcheck
                == Some(
                (ComposeHealthcheck {
                    test: healthcheck_test,
                    interval,
                    timeout,
                    retries,
                    start_period,
                    start_interval,
                    disable,
                }),
            ),
            None => res.healthcheck is None,
        },
{
    let healthcheck = match healthcheck_settings {
        Some((interval, timeout, retries, start_period, start_interval, disable)) => Some(
            ComposeHealthcheck {
                test: healthcheck_test,
                interval,
                timeout,
                retries,
                start_period,
                start_interval,
                disable,
            },
        ),
        None => None,
    };
    ComposeService { depends_on, build_, image, container_name, healthcheck, ports, environment }
}

/// The `i`-th service of a text that parses, in plain form.
fn yaml_service_at(text: &str, i: usize) -> (res: ComposeService)
    requires
        yaml_has_service(text@, i as int),
    ensures
        res@ == yaml_service(text@, i as int),
{
    let res = service_model(
        yaml_service_depends_on(text, i),
        yaml_service_build(text, i),
        yaml_service_image(text, i),
        yaml_service_container_name(text, i),
        yaml_service_healthcheck_settings(text, i),
        yaml_service_healthcheck_test(text, i),
        yaml_service_ports(text, i),
        yaml_service_environment(text, i),
    );
    res
}

/// The services of a compose file's text, in the order the file declares
/// them, or the parser's message when the text is not a compose file.
pub fn compose_services(text: &str) -> (res: Result<Vec<(String, Option<ComposeService>)>, CliErrors>)
    ensures
        match compose_yaml(text@) {
            Ok(svcs) => res is Ok && services_view(res->Ok_0@) == svcs,
            Err(e) => res is Err && res->Err_0.message@ == e,
        },
{
    let entries = match parse_compose_entries(text) {
        Ok(v) => v,
        Err(e) => {
            return Err(CliErrors::new(e));
        },
    };
    let ghost svcs = compose_yaml(text@)->Ok_0;
    let mut services: Vec<(String, Option<ComposeService>)> = Vec::new();
    let mut i: usize = 0;
    while i < entries.len()
        invariant
            0 <= i <= entries.len(),
            compose_yaml(text@) is Ok,
            svcs == compose_yaml(text@)->Ok_0,
            entries@.len() == svcs.len(),
            forall|k: int|
                0 <= k < entries@.len() ==> #[trigger] entries@[k].0@ == svcs[k].0 && entries@[k].1
                    == (svcs[k].1 is Some),
            services_view(services@) == svcs.take(i as int),
        decreases entries.len() - i,
    {
        let ghost before = services@;
        assert(entries@[i as int].0@ == svcs[i as int].0);
        let service = if entries[i].1 {
            Some(yaml_service_at(text, i))
        } else {
            None
        };
        services.push((entries[i].0.clone(), service));
        assert(services_view(services@) =~= services_view(before).push(
            (svcs[i as int].0, svcs[i as int].1),
        ));
        assert(svcs.take(i + 1) =~= svcs.take(i as int).push(svcs[i as int]));
        i = i + 1;
    }
    assert(svcs.take(entries.len() as int) =~= svcs);
    Ok(services)
}

/// Services in plain form with the given text form. Which ones does not
/// matter: the start order and the details depend only on the text form
/// (`lemma_plan_depends_on_view`).
pub open spec fn services_of_view(svcs: Seq<(Seq<char>, Option<ComposeServiceView>)>) -> Seq<
    (String, Option<ComposeService>),
> {
    choose|services: Seq<(String, Option<ComposeService>)>| services_view(services) == svcs
}

/// The details of each service of a compose file and the order to start them
/// in, or the first error met: the parser's message, or the first error of the
/// walk over the services the text holds.
pub fn compose_file_plan(text: &str) -> (res: Result<(NameMap<DockerImageDetails>, Vec<String>), CliErrors>)
    ensures
        match compose_yaml(text@) {
            Err(e) => res is Err && res->Err_0.message@ == e,
            Ok(svcs) => match spec_sort_services(services_of_view(svcs)) {
                Ok(order) => res is Ok && names(res->Ok_0.1@) == order && res->Ok_0.0@
                    == details_map(services_of_view(svcs), order),
                Err(e) => res is Err && res->Err_0.message@ == e,
            },
        },
{
    let services = compose_services(text)?;
    let res = construct_docker_image_details_map(&services);
    proof {
        let svcs = compose_yaml(text@)->Ok_0;
        assert(services_view(services@) == svcs);
        let chosen = services_of_view(svcs);
        assert(services_view(chosen) == svcs);
        lemma_plan_depends_on_view(services@, chosen);
    }
    res
}

} // verus!
