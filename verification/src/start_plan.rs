//! The decisions of `Up`: whether the project's network already runs
//! containers, which of them to restart and which services to start afresh, how
//! each service gets its image, how its container is configured, and when a
//! started container counts as up.
use crate::cli_errors::CliErrors;
use crate::compose::{opt_health_view, ComposeHealthcheck, HealthcheckView};
use crate::compose_parser::DockerImageDetails;
use crate::health::{
    get_health_config, health_in_range, spec_health_config, HealthConfig, HealthConfigView,
};
use crate::name_map::NameMap;
use crate::yaml_parser::NetworkConfig;
use crate::text::{
    contains_name, copy_names, copy_opt, find_char, find_char_from, has_prefix, names, opt_text, str_eq,
};
use vstd::prelude::*;

verus! {

/// What to watch while a container starts: that it runs, or that its health
/// check reports it healthy.
pub enum ContainerInspectType {
    Status,
    Health(ComposeHealthcheck),
}

/// The text form of `ContainerInspectType`.
pub enum ContainerInspectTypeView {
    Status,
    Health(HealthcheckView),
}

impl View for ContainerInspectType {
    type V = ContainerInspectTypeView;

    open spec fn view(&self) -> ContainerInspectTypeView {
        match self {
            ContainerInspectType::Status => ContainerInspectTypeView::Status,
            ContainerInspectType::Health(h) => ContainerInspectTypeView::Health(h@),
        }
    }
}

/// What to watch for a service: its health check when it has one.
pub open spec fn spec_inspect_for(health: Option<HealthcheckView>) -> ContainerInspectTypeView {
    match health {
        Some(h) => ContainerInspectTypeView::Health(h),
        None => ContainerInspectTypeView::Status,
    }
}

/// What to watch for a service with these details.
pub fn inspect_type_for(details: &DockerImageDetails) -> (res: ContainerInspectType)
    ensures
        res@ == spec_inspect_for(opt_health_view(details.health_check)),
{
    match &details.health_check {
        Some(h) => ContainerInspectType::Health(h.duplicate()),
        None => ContainerInspectType::Status,
    }
}

/// The error Docker gives when a network does not exist.
pub open spec fn network_not_found_text(network_id: Seq<char>) -> Seq<char> {
    "Docker responded with status code 404: network "@ + network_id + " not found"@
}

/// Whether the project's network exists, from the error (if any) of inspecting
/// it: no error means it exists, Docker's "not found" means it does not, and any
/// other error is passed on.
pub fn network_exists(network_id: &str, probe_error: Option<CliErrors>) -> (res: Result<bool, CliErrors>)
    ensures
        match probe_error {
            None => res == Ok::<bool, CliErrors>(true),
            Some(e) => if e.message@ == network_not_found_text(network_id@) {
                res == Ok::<bool, CliErrors>(false)
            } else {
                res is Err && res->Err_0.message@ == e.message@
            },
        },
{
    match probe_error {
        None => Ok(true),
        Some(e) => {
            let expected = String::from_str("Docker responded with status code 404: network ").concat(
                network_id,
            ).concat(" not found");
            if e.message == expected {
                Ok(false)
            } else {
                Err(e)
            }
        },
    }
}

/// What the tool reads of a container found in the project's network.
pub struct ContainerSummaryInfo {
    pub id: Option<String>,
    pub labels: Option<NameMap<String>>,
}

/// The label key that names a container's service.
pub open spec fn service_label_key() -> Seq<char> {
    "com.docker.compose.service"@
}

/// The service and id of one container, or why they cannot be read.
pub open spec fn spec_container_service(c: ContainerSummaryInfo) -> Result<(Seq<char>, Seq<char>), Seq<char>> {
    match c.id {
        None => Err("unable to extract conatiner id"@),
        Some(id) => match c.labels {
            None => Err("not able to extarct lables from conatiner = "@ + id@ + " "@),
            Some(l) => if l@.contains_key(service_label_key()) {
                Ok((l@[service_label_key()], id@))
            } else {
                Err("the service name is not present , internal error"@)
            },
        },
    }
}

/// The map from service to container id for a list of containers, or the error
/// of the first container that cannot be read.
pub open spec fn spec_service_container_map(cs: Seq<ContainerSummaryInfo>) -> Result<
    Map<Seq<char>, Seq<char>>,
    Seq<char>,
>
    decreases cs.len(),
{
    if cs.len() == 0 {
        Ok(Map::empty())
    } else {
        match spec_service_container_map(cs.drop_last()) {
            Err(e) => Err(e),
            Ok(m) => match spec_container_service(cs.last()) {
                Err(e) => Err(e),
                Ok((svc, id)) => Ok(m.insert(svc, id)),
            },
        }
    }
}

proof fn lemma_container_map_error_stays(cs: Seq<ContainerSummaryInfo>, i: int)
    requires
        0 <= i <= cs.len(),
        spec_service_container_map(cs.take(i)) is Err,
    ensures
        spec_service_container_map(cs) == spec_service_container_map(cs.take(i)),
    decreases cs.len() - i,
{
    if i < cs.len() {
        assert(cs.take(i + 1).drop_last() =~= cs.take(i));
        lemma_container_map_error_stays(cs, i + 1);
    } else {
        assert(cs.take(i) =~= cs);
    }
}

/// Maps each service of the project's containers to its container's id.
pub fn service_container_map(containers: &Vec<ContainerSummaryInfo>) -> (res: Result<
    NameMap<String>,
    CliErrors,
>)
    ensures
        match spec_service_container_map(containers@) {
            Ok(m) => res is Ok && res->Ok_0@ == m,
            Err(e) => res is Err && res->Err_0.message@ == e,
        },
{
    let mut map: NameMap<String> = NameMap::new();
    let mut i: usize = 0;
    assert(containers@.take(0) =~= Seq::<ContainerSummaryInfo>::empty());
    while i < containers.len()
        invariant
            0 <= i <= containers.len(),
            spec_service_container_map(containers@.take(i as int)) == Ok::<
                Map<Seq<char>, Seq<char>>,
                Seq<char>,
            >(map@),
        decreases containers.len() - i,
    {
        assert(containers@.take(i + 1).drop_last() =~= containers@.take(i as int));
        assert(containers@.take(i + 1).last() == containers@[i as int]);
        let cont = &containers[i];
        let cont_id = match &cont.id {
            Some(id) => id.clone(),
            None => {
                proof {
                    lemma_container_map_error_stays(containers@, i + 1);
                }
                return Err(CliErrors::new(String::from_str("unable to extract conatiner id")));
            },
        };
        let l = match &cont.labels {
            Some(l) => l,
            None => {
                proof {
                    lemma_container_map_error_stays(containers@, i + 1);
                }
                let message = String::from_str("not able to extarct lables from conatiner = ").concat(
                    cont_id.as_str(),
                ).concat(" ");
                return Err(CliErrors::new(message));
            },
        };
        match l.get("com.docker.compose.service") {
            Some(service) => {
                map.insert(service.clone(), cont_id);
            },
            None => {
                proof {
                    lemma_container_map_error_stays(containers@, i + 1);
                }
                return Err(
                    CliErrors::new(
                        String::from_str("the service name is not present , internal error"),
                    ),
                );
            },
        }
        i = i + 1;
    }
    assert(containers@.take(containers.len() as int) =~= containers@);
    Ok(map)
}

/// What `Up` makes of the containers found in the project's existing network:
/// with none, the network is removed and the project started afresh (`None`);
/// otherwise the map from each service to its container.
pub fn existing_network_plan(containers: &Vec<ContainerSummaryInfo>) -> (res: Result<
    Option<NameMap<String>>,
    CliErrors,
>)
    ensures
        containers@.len() == 0 ==> res matches Ok(None),
        containers@.len() > 0 ==> match spec_service_container_map(containers@) {
            Ok(m) => res matches Ok(Some(found)) && found@ == m,
            Err(e) => res is Err && res->Err_0.message@ == e,
        },
{
    if containers.len() == 0 {
        return Ok(None);
    }
    let map = service_container_map(containers)?;
    Ok(Some(map))
}

/// What `Up` does for a service when the project's network already has
/// containers: restart the service's container, or start the service afresh.
pub enum NetworkStartStep {
    Restart { container_id: String, image_tag: String, inspect_type: ContainerInspectType },
    Start,
}

/// Error text when a running service has no details.
pub open spec fn missing_details_text() -> Seq<char> {
    "serrive details not present in internal struct , please delete all services and re run up command"@
}

/// Error text when a service to start or restart names no image.
pub open spec fn missing_image_text(service: Seq<char>) -> Seq<char> {
    "no image name fount for service "@ + service
}

/// What `Up` does for `service`: a service with a container is restarted from
/// its image (its details must be known and name one), any other is started
/// afresh.
pub fn network_start_step(
    service: &str,
    service_to_cont_id_map: &NameMap<String>,
    service_map: &NameMap<DockerImageDetails>,
) -> (res: Result<NetworkStartStep, CliErrors>)
    ensures
        !service_to_cont_id_map@.contains_key(service@) ==> res matches Ok(NetworkStartStep::Start),
        service_to_cont_id_map@.contains_key(service@) && !service_map@.contains_key(service@)
            ==> res is Err && res->Err_0.message@ == missing_details_text(),
        service_to_cont_id_map@.contains_key(service@) && service_map@.contains_key(service@)
            && service_map@[service@].image is None ==> res is Err && res->Err_0.message@
            == missing_image_text(service@),
        service_to_cont_id_map@.contains_key(service@) && service_map@.contains_key(service@)
            && service_map@[service@].image is Some ==> (res matches Ok(
            NetworkStartStep::Restart { container_id, image_tag, inspect_type },
        )
            && container_id@ == service_to_cont_id_map@[service@] && Some(image_tag@)
            == service_map@[service@].image && inspect_type@ == spec_inspect_for(
            service_map@[service@].health_check,
        )),
{
    match service_to_cont_id_map.get(service) {
        Some(c_id) => {
            let ser_details = match service_map.get(service) {
                Some(d) => d,
                None => {
                    return Err(
                        CliErrors::new(
                            String::from_str(
                                "serrive details not present in internal struct , please delete all services and re run up command",
                            ),
                        ),
                    );
                },
            };
            let image_tag = match &ser_details.image {
                Some(i) => i.clone(),
                None => {
                    return Err(
                        CliErrors::new(
                            String::from_str("no image name fount for service ").concat(service),
                        ),
                    );
                },
            };
            let inspect_type = inspect_type_for(ser_details);
            Ok(NetworkStartStep::Restart { container_id: c_id.clone(), image_tag, inspect_type })
        },
        None => Ok(NetworkStartStep::Start),
    }
}

/// Where a service's image comes from.
pub enum ImageSource {
    /// Built from the current folder (`build: .`).
    CurrentFolder,
    /// Built from a local folder at this path.
    Folder(String),
    /// Built from a remote git repository at this address.
    Remote(String),
    /// An image already present, or pulled from a registry.
    Image,
}

/// How to start one service.
pub struct ServiceStartPlan {
    pub container_name: String,
    pub image_name: String,
    pub host_port: Option<String>,
    pub cont_port: Option<String>,
    pub inspect_type: ContainerInspectType,
    pub source: ImageSource,
}

/// The beginnings that mark a build path as the address of a git repository.
pub open spec fn remote_prefixes() -> Seq<Seq<char>> {
    seq!["http://"@, "https://"@, "git://"@, "git@"@, "ssh://"@, "file://"@]
}

/// `s` starts with `p`.
pub open spec fn starts_with(s: Seq<char>, p: Seq<char>) -> bool {
    p.len() <= s.len() && s.subrange(0, p.len() as int) == p
}

/// The short form `[user@]host:path` that git reads as a remote address: a
/// `:` after a non-empty start that holds no `/`.
pub open spec fn is_scp_like(b: Seq<char>) -> bool {
    match find_char_from(b, ':', 0) {
        Some(i) => i > 0 && match find_char_from(b, '/', 0) {
            Some(j) => i < j,
            None => true,
        },
        None => false,
    }
}

/// A build path is a repository address when it starts with one of
/// `remote_prefixes` or has git's `host:path` form; any other path names a
/// local folder.
pub open spec fn is_remote_build(b: Seq<char>) -> bool {
    (exists|k: int| 0 <= k < remote_prefixes().len() && starts_with(b, #[trigger] remote_prefixes()[k]))
        || is_scp_like(b)
}

/// Where the image of a service with this build path comes from.
pub open spec fn spec_image_source(build: Option<Seq<char>>) -> ImageSourceView {
    match build {
        Some(b) => if b == "."@ {
            ImageSourceView::CurrentFolder
        } else if is_remote_build(b) {
            ImageSourceView::Remote(b)
        } else {
            ImageSourceView::Folder(b)
        },
        None => ImageSourceView::Image,
    }
}

/// The text form of `ImageSource`.
pub enum ImageSourceView {
    CurrentFolder,
    Folder(Seq<char>),
    Remote(Seq<char>),
    Image,
}

impl View for ImageSource {
    type V = ImageSourceView;

    open spec fn view(&self) -> ImageSourceView {
        match self {
            ImageSource::CurrentFolder => ImageSourceView::CurrentFolder,
            ImageSource::Folder(p) => ImageSourceView::Folder(p@),
            ImageSource::Remote(u) => ImageSourceView::Remote(u@),
            ImageSource::Image => ImageSourceView::Image,
        }
    }
}

/// Whether a build path is a repository address.
pub fn is_remote_build_path(build: &str) -> (res: bool)
    ensures
        res == is_remote_build(build@),
{
    let by_prefix = has_prefix(build, "http://") || has_prefix(build, "https://") || has_prefix(
        build,
        "git://",
    ) || has_prefix(build, "git@") || has_prefix(build, "ssh://") || has_prefix(build, "file://");
    proof {
        let ps = remote_prefixes();
        if by_prefix {
            if starts_with(build@, "http://"@) {
                assert(starts_with(build@, ps[0]));
            } else if starts_with(build@, "https://"@) {
                assert(starts_with(build@, ps[1]));
            } else if starts_with(build@, "git://"@) {
                assert(starts_with(build@, ps[2]));
            } else if starts_with(build@, "git@"@) {
                assert(starts_with(build@, ps[3]));
            } else if starts_with(build@, "ssh://"@) {
                assert(starts_with(build@, ps[4]));
            } else {
                assert(starts_with(build@, ps[5]));
            }
        } else if exists|k: int| 0 <= k < ps.len() && starts_with(build@, #[trigger] ps[k]) {
            let k = choose|k: int| 0 <= k < ps.len() && starts_with(build@, #[trigger] ps[k]);
            assert(false);
        }
    }
    let colon = find_char(build, ':');
    let slash = find_char(build, '/');
    let scp = match colon {
        Some(i) => {
            let first = i > 0;
            let before_slash = match slash {
                Some(j) => i < j,
                None => true,
            };
            first && before_slash
        },
        None => false,
    };
    assert(scp == is_scp_like(build@));
    assert(by_prefix == (exists|k: int|
        0 <= k < remote_prefixes().len() && starts_with(build@, #[trigger] remote_prefixes()[k])));
    by_prefix || scp
}

/// How to start `ser`: its details, its container name and its image name must
/// all be known; the image is built from the current folder for `build: .`,
/// from a remote repository for any other build path, and otherwise used as is.
pub fn plan_service_start(ser: &str, service_map: &NameMap<DockerImageDetails>) -> (res: Result<
    ServiceStartPlan,
    CliErrors,
>)
    ensures
        !service_map@.contains_key(ser@) ==> res is Err && res->Err_0.message@
            == "getting some erro whil extracting "@ + ser@,
        service_map@.contains_key(ser@) ==> ({
            let d = service_map@[ser@];
            if d.container_name is None {
                res is Err && res->Err_0.message@ == "no container name found for service =  "@
                    + ser@
            } else if d.image is None {
                res is Err && res->Err_0.message@ == missing_image_text(ser@)
            } else {
                &&& res is Ok
                &&& Some(res->Ok_0.container_name@) == d.container_name
                &&& Some(res->Ok_0.image_name@) == d.image
                &&& opt_text(res->Ok_0.host_port) == Some(d.port.0)
                &&& opt_text(res->Ok_0.cont_port) == Some(d.port.1)
                &&& res->Ok_0.inspect_type@ == spec_inspect_for(d.health_check)
                &&& res->Ok_0.source@ == spec_image_source(d.build)
            }
        }),
{
    let current_image_details = match service_map.get(ser) {
        Some(d) => d,
        None => {
            return Err(
                CliErrors::new(String::from_str("getting some erro whil extracting ").concat(ser)),
            );
        },
    };
    let container_name = match &current_image_details.container_name {
        Some(c) => c.clone(),
        None => {
            return Err(
                CliErrors::new(
                    String::from_str("no container name found for service =  ").concat(ser),
                ),
            );
        },
    };
    let h_p = Some(current_image_details.port.0.clone());
    let c_p = Some(current_image_details.port.1.clone());
    let image_name = match &current_image_details.image {
        Some(i) => i.clone(),
        None => {
            return Err(
                CliErrors::new(String::from_str("no image name fount for service ").concat(ser)),
            );
        },
    };
    let inspect_type = inspect_type_for(current_image_details);
    let source = match &current_image_details.build {
        Some(build_file) => {
            if str_eq(build_file.as_str(), ".") {
                ImageSource::CurrentFolder
            } else if is_remote_build_path(build_file.as_str()) {
                ImageSource::Remote(build_file.clone())
            } else {
                ImageSource::Folder(build_file.clone())
            }
        },
        None => ImageSource::Image,
    };
    Ok(ServiceStartPlan { container_name, image_name, host_port: h_p, cont_port: c_p, inspect_type, source })
}

/// Error text for a build path that is neither the current folder nor a git
/// repository.
pub open spec fn unsupported_build_text() -> Seq<char> {
    "currently we are supporting building only current dir and public git repo and images present locally or in docker hub"@
}

/// The error for a build path that is neither the current folder nor a git
/// repository.
pub fn unsupported_build_source() -> (res: CliErrors)
    ensures
        res.message@ == unsupported_build_text(),
{
    CliErrors::new(
        String::from_str(
            "currently we are supporting building only current dir and public git repo and images present locally or in docker hub",
        ),
    )
}

/// Whether an image is present locally: some local image carries the name
/// among its tags. `repo_tags` holds the tags of each local image.
pub fn check_image_locally(repo_tags: &Vec<Vec<String>>, image_tag_name: &str) -> (res: bool)
    ensures
        res == exists|i: int|
            0 <= i < repo_tags@.len() && #[trigger] names(repo_tags@[i]@).contains(image_tag_name@),
{
    let mut i: usize = 0;
    while i < repo_tags.len()
        invariant
            0 <= i <= repo_tags.len(),
            forall|j: int|
                0 <= j < i ==> !#[trigger] names(repo_tags@[j]@).contains(image_tag_name@),
        decreases repo_tags.len() - i,
    {
        if contains_name(&repo_tags[i], image_tag_name) {
            return true;
        }
        i = i + 1;
    }
    false
}

/// The publication of one container port on a host port.
pub struct PortBindingSpec {
    /// `<container_port>/tcp`
    pub container_port_key: String,
    pub host_ip: String,
    pub host_port: String,
}

/// How to create a service's container.
pub struct ContainerCreateSpec {
    pub name: String,
    pub image: String,
    pub exposed_port: Option<String>,
    pub port_binding: Option<PortBindingSpec>,
    /// Whether Docker removes the container when it stops; set (to `false`)
    /// with the host settings that publish a port.
    pub auto_remove: Option<bool>,
    pub labels: NameMap<String>,
    pub health: Option<HealthConfig>,
    /// The networks the container joins.
    pub network: NetworkConfig,
}

/// The health configuration to create a container with, or the error of its
/// durations.
pub open spec fn spec_create_health(inspect: ContainerInspectTypeView) -> Result<Option<HealthConfigView>, Seq<char>> {
    match inspect {
        ContainerInspectTypeView::Status => Ok(None),
        ContainerInspectTypeView::Health(h) => match spec_health_config(h) {
            Ok(c) => Ok(Some(c)),
            Err(e) => Err(e),
        },
    }
}

/// The text form of an optional health configuration.
pub open spec fn opt_health_config_view(h: Option<HealthConfig>) -> Option<HealthConfigView> {
    match h {
        Some(c) => Some(c@),
        None => None,
    }
}

/// How to create the container of a service: named `container_name`, running
/// `image_tag`, publishing the container port on the host port on every
/// address when both are given, health-checked as the service asks, and
/// labelled with the project labels plus the service's name. The service's
/// name is added to `labels` once the health configuration is known.
pub fn container_create_spec(
    container_name: &str,
    service_name: &str,
    image_tag: &str,
    inspect_type: &ContainerInspectType,
    host_port: Option<String>,
    cont_port: Option<String>,
    network: &NetworkConfig,
    labels: &mut NameMap<String>,
) -> (res: Result<ContainerCreateSpec, CliErrors>)
    requires
        inspect_type@ matches ContainerInspectTypeView::Health(h) ==> health_in_range(h),
    ensures
        match spec_create_health(inspect_type@) {
            Err(e) => res is Err && res->Err_0.message@ == e && final(labels)@ == old(labels)@,
            Ok(h) => {
                &&& res is Ok
                &&& final(labels)@ == old(labels)@.insert(service_label_key(), service_name@)
                &&& res->Ok_0.labels@ == final(labels)@
                &&& res->Ok_0.name@ == container_name@
                &&& res->Ok_0.image@ == image_tag@
                &&& names(res->Ok_0.network.endpoints@) == names(network.endpoints@)
                &&& opt_health_config_view(res->Ok_0.health) == h
                &&& match (host_port, cont_port) {
                    (Some(h_p), Some(c_p)) => {
                        &&& opt_text(res->Ok_0.exposed_port) == Some(c_p@ + "/tcp"@)
                        &&& res->Ok_0.port_binding matches Some(b) && b.container_port_key@ == c_p@
                            + "/tcp"@ && b.host_ip@ == "0.0.0.0"@ && b.host_port@ == h_p@
                        &&& res->Ok_0.auto_remove == Some(false)
                    },
                    _ => res->Ok_0.exposed_port is None && res->Ok_0.port_binding is None
                        && res->Ok_0.auto_remove is None,
                }
            },
        },
{
    let mut exposed_port: Option<String> = None;
    let mut port_binding: Option<PortBindingSpec> = None;
    let mut auto_remove: Option<bool> = None;
    match (host_port, cont_port) {
        (Some(h_p), Some(c_p)) => {
            let cont_port_key = c_p.concat("/tcp");
            exposed_port = Some(cont_port_key.clone());
            port_binding = Some(
                PortBindingSpec {
                    container_port_key: cont_port_key,
                    host_ip: String::from_str("0.0.0.0"),
                    host_port: h_p,
                },
            );
            auto_remove = Some(false);
        },
        _ => {},
    }
    let health = match inspect_type {
        ContainerInspectType::Status => None,
        ContainerInspectType::Health(h) => Some(get_health_config(h)?),
    };
    labels.insert(String::from_str("com.docker.compose.service"), service_name.to_owned());
    Ok(
        ContainerCreateSpec {
            name: container_name.to_owned(),
            image: image_tag.to_owned(),
            exposed_port,
            port_binding,
            auto_remove,
            labels: labels.duplicate(),
            health,
            network: NetworkConfig { endpoints: copy_names(&network.endpoints) },
        },
    )
}

/// What inspecting a container reports of its state, as text: its status, and
/// whether it has a health record with a status.
pub struct InspectedState {
    pub status: Option<String>,
    pub health_status: Option<Option<String>>,
}

/// The value to watch in an inspected state: the status when watching that it
/// runs, the health status when watching its health check.
pub open spec fn spec_container_status(
    inspect_type: ContainerInspectTypeView,
    state: Option<(Option<Seq<char>>, Option<Option<Seq<char>>>)>,
) -> Result<Seq<char>, Seq<char>> {
    match state {
        None => Err("getting none while inspecting the conatiner"@),
        Some((status, health)) => match inspect_type {
            ContainerInspectTypeView::Status => match status {
                Some(s) => Ok(s),
                None => Err("health check is not defined for this service"@),
            },
            ContainerInspectTypeView::Health(_) => match health {
                None => Err("getting error in heath check"@),
                Some(None) => Err("GETTING ERROR IN HEALTH CHECK STATUS"@),
                Some(Some(h)) => Ok(h),
            },
        },
    }
}

/// The text form of an inspected state.
pub open spec fn inspected_view(state: Option<InspectedState>) -> Option<
    (Option<Seq<char>>, Option<Option<Seq<char>>>),
> {
    match state {
        None => None,
        Some(s) => Some(
            (
                opt_text(s.status),
                match s.health_status {
                    None => None,
                    Some(h) => Some(opt_text(h)),
                },
            ),
        ),
    }
}

/// The value to watch of an inspected container.
pub fn container_status(inspect_type: &ContainerInspectType, state: Option<InspectedState>) -> (res:
    Result<String, CliErrors>)
    ensures
        match spec_container_status(inspect_type@, inspected_view(state)) {
            Ok(v) => res is Ok && res->Ok_0@ == v,
            Err(e) => res is Err && res->Err_0.message@ == e,
        },
{
    let st = match state {
        Some(s) => s,
        None => {
            return Err(
                CliErrors::new(String::from_str("getting none while inspecting the conatiner")),
            );
        },
    };
    match inspect_type {
        ContainerInspectType::Status => match st.status {
            Some(s) => Ok(s),
            None => Err(
                CliErrors::new(String::from_str("health check is not defined for this service")),
            ),
        },
        ContainerInspectType::Health(_) => match st.health_status {
            None => Err(CliErrors::new(String::from_str("getting error in heath check"))),
            Some(None) => Err(
                CliErrors::new(String::from_str("GETTING ERROR IN HEALTH CHECK STATUS")),
            ),
            Some(Some(h)) => Ok(h),
        },
    }
}

/// What to do after a look at a starting container: it is up, or look again
/// after a pause of some seconds.
#[derive(Clone, Copy, Debug, PartialEq, Eq)]
pub enum PollOutcome {
    Ready,
    Wait { pause_secs: u64 },
}

/// A container watched for running is up when its status is `running`, and is
/// looked at again at once otherwise; one watched for health is up when it is
/// `healthy`, and is looked at again after three seconds otherwise.
pub open spec fn spec_wait_step(inspect_type: ContainerInspectTypeView, value: Seq<char>) -> PollOutcome {
    match inspect_type {
        ContainerInspectTypeView::Status => if value == "running"@ {
            PollOutcome::Ready
        } else {
            PollOutcome::Wait { pause_secs: 0 }
        },
        ContainerInspectTypeView::Health(_) => if value == "healthy"@ {
            PollOutcome::Ready
        } else {
            PollOutcome::Wait { pause_secs: 3 }
        },
    }
}

/// What to do after a look at a starting container.
pub fn wait_step(inspect_type: &ContainerInspectType, value: &str) -> (res: PollOutcome)
    ensures
        res == spec_wait_step(inspect_type@, value@),
{
    match inspect_type {
        ContainerInspectType::Status => if str_eq(value, "running") {
            PollOutcome::Ready
        } else {
            PollOutcome::Wait { pause_secs: 0 }
        },
        ContainerInspectType::Health(_) => if str_eq(value, "healthy") {
            PollOutcome::Ready
        } else {
            PollOutcome::Wait { pause_secs: 3 }
        },
    }
}

/// Every container of a project stays in the project: adding a service's name
/// to the labels keeps the project label as it was, and the service label then
/// names the service.
pub proof fn law_service_label_keeps_project(labels: Map<Seq<char>, Seq<char>>, service_name: Seq<char>)
    ensures
        labels.insert(service_label_key(), service_name)[service_label_key()] == service_name,
        labels.contains_key(crate::yaml_parser::project_label_key()) ==> labels.insert(
            service_label_key(),
            service_name,
        )[crate::yaml_parser::project_label_key()] == labels[crate::yaml_parser::project_label_key()],
{
    reveal_strlit("com.docker.compose.service");
    reveal_strlit("com.docker.compose.project");
    assert(service_label_key()[19] != crate::yaml_parser::project_label_key()[19]);
}

/// A started container counts as up only once it is: a container watched for
/// its status exactly when the status is `running`, one watched for its health
/// exactly when the health is `healthy`. Until then it is looked at again, at
/// once for the status and after three seconds for the health.
pub proof fn law_up_only_when_running_or_healthy(h: HealthcheckView, value: Seq<char>)
    ensures
        (spec_wait_step(ContainerInspectTypeView::Status, value) == PollOutcome::Ready) <==> value
            == "running"@,
        (spec_wait_step(ContainerInspectTypeView::Health(h), value) == PollOutcome::Ready) <==> value
            == "healthy"@,
        value != "running"@ ==> spec_wait_step(ContainerInspectTypeView::Status, value)
            == (PollOutcome::Wait { pause_secs: 0 }),
        value != "healthy"@ ==> spec_wait_step(ContainerInspectTypeView::Health(h), value)
            == (PollOutcome::Wait { pause_secs: 3 }),
{
}

/// The value watched is the one the watch asks for: the status for a plain
/// service, the health status for a health-checked one, each exactly as
/// inspected; any other inspection is an error.
pub proof fn law_watched_value(
    h: HealthcheckView,
    status: Option<Seq<char>>,
    health: Option<Option<Seq<char>>>,
)
    ensures
        spec_container_status(ContainerInspectTypeView::Status, Some((status, health))) is Ok
            <==> status is Some,
        status matches Some(s) ==> spec_container_status(
            ContainerInspectTypeView::Status,
            Some((status, health)),
        ) == Ok::<Seq<char>, Seq<char>>(s),
        spec_container_status(ContainerInspectTypeView::Health(h), Some((status, health))) is Ok
            <==> health matches Some(Some(_)),
        health matches Some(Some(v)) ==> spec_container_status(
            ContainerInspectTypeView::Health(h),
            Some((status, health)),
        ) == Ok::<Seq<char>, Seq<char>>(v),
        spec_container_status(ContainerInspectTypeView::Status, None) is Err,
        spec_container_status(ContainerInspectTypeView::Health(h), None) is Err,
{
}

/// Where an image comes from: a service without a build path uses its image;
/// `.` is the current folder; an address of a git repository is cloned; any
/// other path is a local folder, built from that very path.
pub proof fn law_image_source(build: Option<Seq<char>>)
    ensures
        build is None ==> spec_image_source(build) == ImageSourceView::Image,
        build == Some("."@) ==> spec_image_source(build) == ImageSourceView::CurrentFolder,
        build matches Some(b) ==> (b != "."@ && is_remote_build(b) ==> spec_image_source(build)
            == ImageSourceView::Remote(b)),
        build matches Some(b) ==> (b != "."@ && !is_remote_build(b) ==> spec_image_source(build)
            == ImageSourceView::Folder(b)),
{
}

/// A build path that begins with the scheme of a git address (`http://`,
/// `https://`, `git://`, `ssh://`, `file://`, or `git@`) is a repository; a path
/// that begins with `/` or `.` and holds no `:` is a local folder.
pub proof fn law_remote_build(b: Seq<char>, rest: Seq<char>)
    ensures
        is_remote_build("http://"@ + rest),
        is_remote_build("https://"@ + rest),
        is_remote_build("git://"@ + rest),
        is_remote_build("git@"@ + rest),
        is_remote_build("ssh://"@ + rest),
        is_remote_build("file://"@ + rest),
        b.len() > 0 && (b[0] == '/' || b[0] == '.') && !b.contains(':') ==> !is_remote_build(b),
{
    let ps = remote_prefixes();
    assert(starts_with("http://"@ + rest, ps[0])) by {
        assert(("http://"@ + rest).subrange(0, ps[0].len() as int) =~= ps[0]);
    }
    assert(starts_with("https://"@ + rest, ps[1])) by {
        assert(("https://"@ + rest).subrange(0, ps[1].len() as int) =~= ps[1]);
    }
    assert(starts_with("git://"@ + rest, ps[2])) by {
        assert(("git://"@ + rest).subrange(0, ps[2].len() as int) =~= ps[2]);
    }
    assert(starts_with("git@"@ + rest, ps[3])) by {
        assert(("git@"@ + rest).subrange(0, ps[3].len() as int) =~= ps[3]);
    }
    assert(starts_with("ssh://"@ + rest, ps[4])) by {
        assert(("ssh://"@ + rest).subrange(0, ps[4].len() as int) =~= ps[4]);
    }
    assert(starts_with("file://"@ + rest, ps[5])) by {
        assert(("file://"@ + rest).subrange(0, ps[5].len() as int) =~= ps[5]);
    }
    if b.len() > 0 && (b[0] == '/' || b[0] == '.') && !b.contains(':') {
        crate::text::lemma_find_char_from(b, ':', 0);
        if find_char_from(b, ':', 0) is Some {
            let i = find_char_from(b, ':', 0)->Some_0;
            assert(b[i] == ':');
        }
        reveal_strlit("http://");
        reveal_strlit("https://");
        reveal_strlit("git://");
        reveal_strlit("git@");
        reveal_strlit("ssh://");
        reveal_strlit("file://");
        assert forall|k: int| 0 <= k < ps.len() implies !starts_with(b, #[trigger] ps[k]) by {
            if starts_with(b, ps[k]) {
                assert(b.subrange(0, ps[k].len() as int)[0] == b[0]);
                assert(ps[k][0] != '/' && ps[k][0] != '.');
            }
        }
    }
}

/// Each service of the project's containers maps to the id of the last
/// container that names it; a service no container names is not in the map.
pub proof fn law_container_map_last_wins(cs: Seq<ContainerSummaryInfo>)
    ensures
        spec_service_container_map(cs) matches Ok(m) ==> forall|svc: Seq<char>| #[trigger]
            m.contains_key(svc) <==> exists|i: int|
                0 <= i < cs.len() && #[trigger] spec_container_service(cs[i])->Ok_0.0 == svc,
        spec_service_container_map(cs) matches Ok(m) ==> forall|i: int|
            0 <= i < cs.len() && (forall|j: int|
                i < j < cs.len() ==> #[trigger] spec_container_service(cs[j])->Ok_0.0
                    != spec_container_service(cs[i])->Ok_0.0) ==> m[spec_container_service(
                cs[i],
            )->Ok_0.0] == #[trigger] spec_container_service(cs[i])->Ok_0.1,
        spec_service_container_map(cs) is Ok <==> forall|i: int|
            0 <= i < cs.len() ==> #[trigger] spec_container_service(cs[i]) is Ok,
    decreases cs.len(),
{
    if cs.len() > 0 {
        let init = cs.drop_last();
        law_container_map_last_wins(init);
        let last = cs.len() - 1;
        assert forall|i: int| 0 <= i < init.len() implies init[i] == cs[i] by {}
        if spec_service_container_map(cs) is Ok {
            let m = spec_service_container_map(cs)->Ok_0;
            let m0 = spec_service_container_map(init)->Ok_0;
            let (k_last, v_last) = spec_container_service(cs[last])->Ok_0;
            assert(m == m0.insert(k_last, v_last));
            assert forall|k: Seq<char>| #[trigger] m.contains_key(k) <==> exists|i: int|
                0 <= i < cs.len() && #[trigger] spec_container_service(cs[i])->Ok_0.0 == k by {
                if m.contains_key(k) {
                    if k == k_last {
                        assert(spec_container_service(cs[last])->Ok_0.0 == k);
                    } else {
                        assert(m0.contains_key(k));
                        let i = choose|i: int|
                            0 <= i < init.len() && #[trigger] spec_container_service(init[i])->Ok_0.0 == k;
                        assert(spec_container_service(cs[i])->Ok_0.0 == k);
                    }
                }
                if exists|i: int| 0 <= i < cs.len() && #[trigger] spec_container_service(cs[i])->Ok_0.0 == k {
                    let i = choose|i: int|
                        0 <= i < cs.len() && #[trigger] spec_container_service(cs[i])->Ok_0.0 == k;
                    if i < last {
                        assert(spec_container_service(init[i])->Ok_0.0 == k);
                    }
                }
            }
            assert forall|i: int|
                0 <= i < cs.len() && (forall|j: int|
                    i < j < cs.len() ==> #[trigger] spec_container_service(cs[j])->Ok_0.0
                        != spec_container_service(cs[i])->Ok_0.0) implies m[spec_container_service(
                cs[i],
            )->Ok_0.0] == #[trigger] spec_container_service(cs[i])->Ok_0.1 by {
                if i < last {
                    assert(spec_container_service(cs[last])->Ok_0.0 != spec_container_service(cs[i])->Ok_0.0);
                    assert forall|j: int| i < j < init.len() implies #[trigger] spec_container_service(
                        init[j],
                    )->Ok_0.0 != spec_container_service(init[i])->Ok_0.0 by {
                        assert(spec_container_service(cs[j])->Ok_0.0 != spec_container_service(cs[i])->Ok_0.0);
                    }
                    assert(spec_container_service(init[i]) == spec_container_service(cs[i]));
                }
            }
        } else {
            if spec_service_container_map(init) is Ok {
                assert(spec_container_service(cs[last]) is Err);
            } else {
                let i = choose|i: int| 0 <= i < init.len() && !(#[trigger] spec_container_service(init[i]) is Ok);
                assert(spec_container_service(cs[i]) is Err);
            }
        }
        if forall|i: int| 0 <= i < cs.len() ==> #[trigger] spec_container_service(cs[i]) is Ok {
            assert forall|i: int| 0 <= i < init.len() implies #[trigger] spec_container_service(init[i]) is Ok by {
                assert(spec_container_service(cs[i]) is Ok);
            }
            assert(spec_container_service(cs[last]) is Ok);
        }
    }
}

} // verus!
