//! What the tool takes from each service of a compose file, and the checks it
//! makes on the way: a build folder (a path, or the `context` of the long
//! form), exactly one `host:container` port
//! mapping, and environment variables written as `NAME=value`.
use crate::cli_errors::{
    cannot_extract_service_details_text, not_supported_ports_format_text, CliErrors,
};
use crate::compose::{
    copy_opt_health, get_service, lookup_service, opt_health_view, ComposeBuild,
    ComposeEnvironment, ComposeHealthcheck, ComposePorts, ComposeService, HealthcheckView,
};
use crate::name_map::NameMap;
use crate::text::{copy_opt, names, opt_text, split_once, split_once_char};
use vstd::prelude::*;

verus! {

/// What the tool needs to start one service.
#[derive(Debug)]
pub struct DockerImageDetails {
    pub build: Option<String>,
    pub image: Option<String>,
    pub container_name: Option<String>,
    pub health_check: Option<ComposeHealthcheck>,
    /// `(host_port, container_port)`: one service port published on one host port.
    pub port: (String, String),
    /// Environment variables, name to value.
    pub environment_vars: Option<NameMap<String>>,
}

/// The text form of `DockerImageDetails`.
pub struct DockerImageDetailsView {
    pub build: Option<Seq<char>>,
    pub image: Option<Seq<char>>,
    pub container_name: Option<Seq<char>>,
    pub health_check: Option<HealthcheckView>,
    pub port: (Seq<char>, Seq<char>),
    pub environment_vars: Option<Map<Seq<char>, Seq<char>>>,
}

/// The map form of optional environment variables.
pub open spec fn opt_env_view(e: Option<NameMap<String>>) -> Option<Map<Seq<char>, Seq<char>>> {
    match e {
        Some(m) => Some(m@),
        None => None,
    }
}

impl View for DockerImageDetails {
    type V = DockerImageDetailsView;

    open spec fn view(&self) -> DockerImageDetailsView {
        DockerImageDetailsView {
            build: opt_text(self.build),
            image: opt_text(self.image),
            container_name: opt_text(self.container_name),
            health_check: opt_health_view(self.health_check),
            port: (self.port.0@, self.port.1@),
            environment_vars: opt_env_view(self.environment_vars),
        }
    }
}

/// Error text when a service lists no port.
pub open spec fn ports_missing_text() -> Seq<char> {
    "please add ports where you want to start service in the container"@
}

/// Error text when a port mapping has no `:`.
pub open spec fn ports_split_text() -> Seq<char> {
    "getting error extracting ports of the service"@
}

/// Error text when an environment entry has no `=`.
pub open spec fn env_split_text(service_name: Seq<char>) -> Seq<char> {
    "cannot extract env variables from "@ + service_name + " service , please check again"@
}

/// Error text when the environment is written as a map.
pub open spec fn env_kv_text() -> Seq<char> {
    "this format of environment variables is not supported , please give in list view"@
}

/// The folder a service is built from: the path of the short form, the
/// `context` of the long form, or none; neither form is refused.
pub open spec fn spec_build_folder(service_name: Seq<char>, build: Option<ComposeBuild>) -> Result<
    Option<Seq<char>>,
    Seq<char>,
> {
    match build {
        Some(ComposeBuild::Simple(p)) => Ok(Some(p@)),
        Some(ComposeBuild::Advanced(c)) => Ok(Some(c@)),
        None => Ok(None),
    }
}

/// The port mapping of a service: its one short entry split at the first `:`.
pub open spec fn spec_ports(service_name: Seq<char>, ports: ComposePorts) -> Result<
    (Seq<char>, Seq<char>),
    Seq<char>,
> {
    match ports {
        ComposePorts::Short(v) => {
            if v.len() > 1 {
                Err(not_supported_ports_format_text(service_name))
            } else if v.len() == 0 {
                Err(ports_missing_text())
            } else {
                match split_once(v[0]@, ':') {
                    Some(p) => Ok(p),
                    None => Err(ports_split_text()),
                }
            }
        },
        ComposePorts::Long => Err(not_supported_ports_format_text(service_name)),
    }
}

/// The environment a list of `NAME=value` entries gives, each entry split at
/// its first `=` and inserted in order, a later name overriding an earlier one.
pub open spec fn spec_env_list(service_name: Seq<char>, entries: Seq<Seq<char>>) -> Result<
    Map<Seq<char>, Seq<char>>,
    Seq<char>,
>
    decreases entries.len(),
{
    if entries.len() == 0 {
        Ok(Map::empty())
    } else {
        match spec_env_list(service_name, entries.drop_last()) {
            Err(e) => Err(e),
            Ok(m) => match split_once(entries.last(), '=') {
                Some((k, v)) => Ok(m.insert(k, v)),
                None => Err(env_split_text(service_name)),
            },
        }
    }
}

/// The environment of a service.
pub open spec fn spec_environment(service_name: Seq<char>, env: ComposeEnvironment) -> Result<
    Option<Map<Seq<char>, Seq<char>>>,
    Seq<char>,
> {
    match env {
        ComposeEnvironment::List(v) => match spec_env_list(service_name, names(v@)) {
            Ok(m) => Ok(Some(m)),
            Err(e) => Err(e),
        },
        ComposeEnvironment::KvPair => Err(env_kv_text()),
    }
}

/// The container name of a service: its own, or else its image name when it
/// names both an image and a build path.
pub open spec fn spec_container_name(
    container_name: Option<Seq<char>>,
    image: Option<Seq<char>>,
    build: Option<Seq<char>>,
) -> Option<Seq<char>> {
    if container_name is None && image is Some && build is Some {
        image
    } else {
        container_name
    }
}

/// What the tool takes from a service, or the first error of its checks, in the
/// order build, ports, environment.
pub open spec fn spec_service_details(service_name: Seq<char>, service: ComposeService) -> Result<
    DockerImageDetailsView,
    Seq<char>,
> {
    match spec_build_folder(service_name, service.build_) {
        Err(e) => Err(e),
        Ok(build) => match spec_ports(service_name, service.ports) {
            Err(e) => Err(e),
            Ok(port) => match spec_environment(service_name, service.environment) {
                Err(e) => Err(e),
                Ok(env) => Ok(
                    DockerImageDetailsView {
                        build,
                        image: opt_text(service.image),
                        container_name: spec_container_name(
                            opt_text(service.container_name),
                            opt_text(service.image),
                            build,
                        ),
                        health_check: opt_health_view(service.healthcheck),
                        port,
                        environment_vars: env,
                    },
                ),
            },
        },
    }
}

/// Once the environment list fails, every longer prefix fails the same way.
proof fn lemma_env_list_error_stays(service_name: Seq<char>, entries: Seq<Seq<char>>, i: int)
    requires
        0 <= i <= entries.len(),
        spec_env_list(service_name, entries.take(i)) is Err,
    ensures
        spec_env_list(service_name, entries) == spec_env_list(service_name, entries.take(i)),
    decreases entries.len() - i,
{
    if i < entries.len() {
        assert(entries.take(i + 1).drop_last() =~= entries.take(i));
        lemma_env_list_error_stays(service_name, entries, i + 1);
    } else {
        assert(entries.take(i) =~= entries);
    }
}

fn env_vars_from_list(service_name: &str, list: &Vec<String>) -> (res: Result<NameMap<String>, CliErrors>)
    ensures
        match spec_env_list(service_name@, names(list@)) {
            Ok(m) => res is Ok && res->Ok_0@ == m,
            Err(e) => res is Err && res->Err_0.message@ == e,
        },
{
    let ghost entries = names(list@);
    let mut env_hash: NameMap<String> = NameMap::new();
    let mut i: usize = 0;
    assert(entries.take(0) =~= Seq::<Seq<char>>::empty());
    while i < list.len()
        invariant
            0 <= i <= list.len(),
            entries == names(list@),
            spec_env_list(service_name@, entries.take(i as int)) == Ok::<
                Map<Seq<char>, Seq<char>>,
                Seq<char>,
            >(env_hash@),
        decreases list.len() - i,
    {
        assert(entries.take(i + 1).drop_last() =~= entries.take(i as int));
        assert(entries.take(i + 1).last() == list@[i as int]@);
        match split_once_char(list[i].as_str(), '=') {
            Some((k, v)) => {
                env_hash.insert(k, v);
            },
            None => {
                proof {
                    lemma_env_list_error_stays(service_name@, entries, i + 1);
                }
                let message = String::from_str("cannot extract env variables from ").concat(
                    service_name,
                ).concat(" service , please check again");
                return Err(CliErrors::new(message));
            },
        }
        i = i + 1;
    }
    assert(entries.take(list.len() as int) =~= entries);
    Ok(env_hash)
}

fn ports_tuple(service_name: &str, ports: &ComposePorts) -> (res: Result<(String, String), CliErrors>)
    ensures
        match spec_ports(service_name@, *ports) {
            Ok(p) => res is Ok && res->Ok_0.0@ == p.0 && res->Ok_0.1@ == p.1,
            Err(e) => res is Err && res->Err_0.message@ == e,
        },
{
    match ports {
        ComposePorts::Short(v) => {
            if v.len() > 1 {
                return Err(CliErrors::not_supported_ports_format(service_name));
            }
            if v.len() == 0 {
                return Err(
                    CliErrors::new(
                        String::from_str(
                            "please add ports where you want to start service in the container",
                        ),
                    ),
                );
            }
            match split_once_char(v[0].as_str(), ':') {
                Some(p) => Ok(p),
                None => Err(
                    CliErrors::new(
                        String::from_str("getting error extracting ports of the service"),
                    ),
                ),
            }
        },
        ComposePorts::Long => Err(CliErrors::not_supported_ports_format(service_name)),
    }
}

/// The details of one service, or the first error of its checks.
pub fn service_details(service_name: &str, service: &ComposeService) -> (res: Result<
    DockerImageDetails,
    CliErrors,
>)
    ensures
        match spec_service_details(service_name@, *service) {
            Ok(d) => res is Ok && res->Ok_0@ == d,
            Err(e) => res is Err && res->Err_0.message@ == e,
        },
{
    let build_folder = match &service.build_ {
        Some(ComposeBuild::Simple(p)) => Some(p.clone()),
        Some(ComposeBuild::Advanced(context)) => Some(context.clone()),
        None => None,
    };
    let image_name = copy_opt(&service.image);
    let mut container_name = copy_opt(&service.container_name);
    if container_name.is_none() {
        if image_name.is_some() && build_folder.is_some() {
            container_name = copy_opt(&image_name);
        }
    }
    let healthcheck_data = copy_opt_health(&service.healthcheck);
    let ports = ports_tuple(service_name, &service.ports)?;
    let environment_vars = match &service.environment {
        ComposeEnvironment::List(list) => Some(env_vars_from_list(service_name, list)?),
        ComposeEnvironment::KvPair => {
            return Err(
                CliErrors::new(
                    String::from_str(
                        "this format of environment variables is not supported , please give in list view",
                    ),
                ),
            );
        },
    };
    Ok(
        DockerImageDetails {
            build: build_folder,
            image: image_name,
            container_name,
            health_check: healthcheck_data,
            port: ports,
            environment_vars,
        },
    )
}

/// Reads the service `service_name` from the file's services and adds what the
/// tool needs of it to `service_map`.
pub fn add_service_to_service_map(
    service_name: &str,
    service_map: &mut NameMap<DockerImageDetails>,
    services_details_index_map: &Vec<(String, Option<ComposeService>)>,
) -> (res: Result<bool, CliErrors>)
    ensures
        match lookup_service(services_details_index_map@, service_name@) {
            Some(Some(svc)) => match spec_service_details(service_name@, svc) {
                Ok(d) => res == Ok::<bool, CliErrors>(true) && final(service_map)@ == old(
                    service_map,
                )@.insert(service_name@, d),
                Err(e) => res is Err && res->Err_0.message@ == e && final(service_map)@ == old(
                    service_map,
                )@,
            },
            _ => res is Err && res->Err_0.message@ == cannot_extract_service_details_text()
                && final(service_map)@ == old(service_map)@,
        },
{
    let entry = match get_service(services_details_index_map, service_name) {
        Some(e) => e,
        None => {
            return Err(CliErrors::cannot_extract_service_details_from_docker_compose());
        },
    };
    let service = match entry {
        Some(s) => s,
        None => {
            return Err(CliErrors::cannot_extract_service_details_from_docker_compose());
        },
    };
    let data_struct = service_details(service_name, service)?;
    service_map.insert(service_name.to_owned(), data_struct);
    Ok(true)
}

/// Splitting a text at its first `c` and joining the two parts with `c` gives
/// the text back, and the first part holds no `c`.
pub proof fn law_split_once_rejoins(t: Seq<char>, c: char)
    ensures
        split_once(t, c) matches Some((a, b)) ==> t == a + seq![c] + b && !a.contains(c),
        split_once(t, c) is None ==> !t.contains(c),
{
    crate::text::lemma_find_char_from(t, c, 0);
    match split_once(t, c) {
        Some((a, b)) => {
            let i = crate::text::find_char_from(t, c, 0)->Some_0;
            assert(t =~= a + seq![c] + b);
            if a.contains(c) {
                let j = choose|j: int| 0 <= j < a.len() && a[j] == c;
                assert(t[j] == c);
            }
        },
        None => {
            if t.contains(c) {
                let j = choose|j: int| 0 <= j < t.len() && t[j] == c;
                assert(t[j] == c);
            }
        },
    }
}

/// The key and value of a `NAME=value` entry: the text before and after its
/// first `=`.
pub open spec fn env_entry(e: Seq<char>) -> Option<(Seq<char>, Seq<char>)> {
    split_once(e, '=')
}

/// The environment of a list holds a name exactly when some entry gives it,
/// and its value is the one of the last entry that does; a list is taken
/// exactly when every entry has a `=`.
pub proof fn law_env_list_last_entry_wins(n: Seq<char>, entries: Seq<Seq<char>>)
    ensures
        spec_env_list(n, entries) is Ok <==> forall|i: int|
            0 <= i < entries.len() ==> #[trigger] env_entry(entries[i]) is Some,
        spec_env_list(n, entries) matches Ok(m) ==> forall|k: Seq<char>| #[trigger]
            m.contains_key(k) <==> exists|i: int|
                0 <= i < entries.len() && #[trigger] env_entry(entries[i])->Some_0.0 == k,
        spec_env_list(n, entries) matches Ok(m) ==> forall|i: int|
            0 <= i < entries.len() && (forall|j: int|
                i < j < entries.len() ==> #[trigger] env_entry(entries[j])->Some_0.0
                    != env_entry(entries[i])->Some_0.0) ==> m[env_entry(entries[i])->Some_0.0]
                == #[trigger] env_entry(entries[i])->Some_0.1,
    decreases entries.len(),
{
    if entries.len() > 0 {
        let init = entries.drop_last();
        law_env_list_last_entry_wins(n, init);
        let last = entries.len() - 1;
        assert forall|i: int| 0 <= i < init.len() implies init[i] == entries[i] by {}
        if spec_env_list(n, entries) is Ok {
            let m = spec_env_list(n, entries)->Ok_0;
            let m0 = spec_env_list(n, init)->Ok_0;
            let (k_last, v_last) = env_entry(entries[last])->Some_0;
            assert(m == m0.insert(k_last, v_last));
            assert forall|k: Seq<char>| #[trigger] m.contains_key(k) <==> exists|i: int|
                0 <= i < entries.len() && #[trigger] env_entry(entries[i])->Some_0.0 == k by {
                if m.contains_key(k) {
                    if k == k_last {
                        assert(env_entry(entries[last])->Some_0.0 == k);
                    } else {
                        assert(m0.contains_key(k));
                        let i = choose|i: int|
                            0 <= i < init.len() && #[trigger] env_entry(init[i])->Some_0.0 == k;
                        assert(env_entry(entries[i])->Some_0.0 == k);
                    }
                }
                if exists|i: int| 0 <= i < entries.len() && #[trigger] env_entry(entries[i])->Some_0.0 == k {
                    let i = choose|i: int|
                        0 <= i < entries.len() && #[trigger] env_entry(entries[i])->Some_0.0 == k;
                    if i < last {
                        assert(env_entry(init[i])->Some_0.0 == k);
                    }
                }
            }
            assert forall|i: int|
                0 <= i < entries.len() && (forall|j: int|
                    i < j < entries.len() ==> #[trigger] env_entry(entries[j])->Some_0.0
                        != env_entry(entries[i])->Some_0.0) implies m[env_entry(entries[i])->Some_0.0]
                == #[trigger] env_entry(entries[i])->Some_0.1 by {
                if i < last {
                    assert(env_entry(entries[last])->Some_0.0 != env_entry(entries[i])->Some_0.0);
                    assert forall|j: int| i < j < init.len() implies #[trigger] env_entry(init[j])->Some_0.0
                        != env_entry(init[i])->Some_0.0 by {
                        assert(env_entry(entries[j])->Some_0.0 != env_entry(entries[i])->Some_0.0);
                    }
                    assert(env_entry(init[i]) == env_entry(entries[i]));
                }
            }
        } else {
            if spec_env_list(n, init) is Ok {
                assert(env_entry(entries[last]) is None);
            } else {
                let i = choose|i: int| 0 <= i < init.len() && !(#[trigger] env_entry(init[i]) is Some);
                assert(env_entry(entries[i]) is None);
            }
        }
        if forall|i: int| 0 <= i < entries.len() ==> #[trigger] env_entry(entries[i]) is Some {
            assert forall|i: int| 0 <= i < init.len() implies #[trigger] env_entry(init[i]) is Some by {
                assert(env_entry(entries[i]) is Some);
            }
            assert(env_entry(entries[last]) is Some);
        }
    }
}

/// What the details of a service keep of it: its image as written (whatever
/// its build), its health check, its build folder (the path of the short
/// form, the `context` of the long form), its container name when it has one
/// (else its image, when it is built); its one port entry is the host port,
/// `:` and the container port, the host port holding no `:`; and its
/// environment comes from its `NAME=value` list.
pub proof fn law_details_keep_service(n: Seq<char>, svc: ComposeService)
    ensures
        spec_service_details(n, svc) matches Ok(d) ==> {
            &&& d.image == opt_text(svc.image)
            &&& d.health_check == opt_health_view(svc.healthcheck)
            &&& d.build == match svc.build_ {
                Some(ComposeBuild::Simple(p)) => Some(p@),
                Some(ComposeBuild::Advanced(c)) => Some(c@),
                None => None,
            }
            &&& svc.container_name is Some ==> d.container_name == opt_text(svc.container_name)
            &&& (svc.container_name is None && svc.image is Some && svc.build_ is Some)
                ==> d.container_name == opt_text(svc.image)
            &&& (svc.container_name is None && !(svc.image is Some && svc.build_ is Some))
                ==> d.container_name is None
            &&& svc.ports matches ComposePorts::Short(v) && v.len() == 1 && v[0]@ == d.port.0
                + seq![':'] + d.port.1 && !d.port.0.contains(':')
            &&& svc.environment matches ComposeEnvironment::List(v) && d.environment_vars
                == Some(spec_env_list(n, names(v@))->Ok_0)
        },
{
    if spec_service_details(n, svc) is Ok {
        match svc.ports {
            ComposePorts::Short(v) => {
                law_split_once_rejoins(v[0]@, ':');
            },
            _ => {},
        }
    }
}

} // verus!
