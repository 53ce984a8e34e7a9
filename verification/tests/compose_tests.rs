use dockyard::compose::{
    ComposeBuild, ComposeEnvironment, ComposeHealthcheck, ComposePorts, ComposeService,
    HealthcheckTest,
};
use dockyard::compose_parser::{add_service_to_service_map, service_details, DockerImageDetails};
use dockyard::name_map::NameMap;
use dockyard::service_sort::{construct_docker_image_details_map, sort_services};

fn svc(deps: &[&str], port: &str) -> ComposeService {
    ComposeService {
        depends_on: deps.iter().map(|d| d.to_string()).collect(),
        build_: None,
        image: Some("nginx:latest".to_string()),
        container_name: Some("c".to_string()),
        healthcheck: None,
        ports: ComposePorts::Short(vec![port.to_string()]),
        environment: ComposeEnvironment::List(vec![]),
    }
}

fn entry(name: &str, s: Option<ComposeService>) -> (String, Option<ComposeService>) {
    (name.to_string(), s)
}

fn position(order: &[String], name: &str) -> usize {
    order.iter().position(|s| s == name).unwrap()
}

#[test]
fn services_start_after_their_dependencies() {
    let services = vec![
        entry("web", Some(svc(&["api", "db"], "80:80"))),
        entry("api", Some(svc(&["db"], "8080:8080"))),
        entry("db", Some(svc(&[], "5432:5432"))),
    ];
    let (map, order) = construct_docker_image_details_map(&services).unwrap();
    assert_eq!(order, vec!["db".to_string(), "api".to_string(), "web".to_string()]);
    for name in ["web", "api", "db"] {
        assert!(map.get(name).is_some());
    }
    assert_eq!(map.get("db").unwrap().port, ("5432".to_string(), "5432".to_string()));
}

#[test]
fn depth_first_order_follows_file_and_dependency_order() {
    let services = vec![
        entry("a", Some(svc(&["c", "b"], "1:1"))),
        entry("b", Some(svc(&[], "2:2"))),
        entry("c", Some(svc(&["b"], "3:3"))),
        entry("d", Some(svc(&[], "4:4"))),
    ];
    let (_, order) = construct_docker_image_details_map(&services).unwrap();
    assert_eq!(order, vec!["b", "c", "a", "d"]);
    assert!(position(&order, "b") < position(&order, "c"));
}

#[test]
fn cyclic_dependency_is_rejected() {
    let services = vec![
        entry("a", Some(svc(&["b"], "1:1"))),
        entry("b", Some(svc(&["c"], "2:2"))),
        entry("c", Some(svc(&["a"], "3:3"))),
    ];
    let e = construct_docker_image_details_map(&services).err().unwrap();
    assert_eq!(
        e.message,
        "there is a cyclic dependecy in the services , please check and resolve it"
    );
}

#[test]
fn self_dependency_is_rejected() {
    let services = vec![entry("a", Some(svc(&["a"], "1:1")))];
    assert!(construct_docker_image_details_map(&services).is_err());
}

#[test]
fn missing_dependency_is_reported() {
    let services = vec![entry("a", Some(svc(&["ghost"], "1:1")))];
    let e = construct_docker_image_details_map(&services).err().unwrap();
    assert_eq!(e.message, "service = ghost is not present , please check");
}

#[test]
fn empty_service_is_reported() {
    let services = vec![entry("a", None)];
    let e = construct_docker_image_details_map(&services).err().unwrap();
    assert_eq!(e.message, "value");
}

#[test]
fn empty_file_gives_empty_order() {
    let services: Vec<(String, Option<ComposeService>)> = vec![];
    let (_, order) = construct_docker_image_details_map(&services).unwrap();
    assert!(order.is_empty());
}

#[test]
fn sort_services_from_one_service() {
    let services = vec![
        entry("a", Some(svc(&["b"], "1:1"))),
        entry("b", Some(svc(&[], "2:2"))),
    ];
    let mut visiting = Vec::new();
    let mut visited = Vec::new();
    let mut order = Vec::new();
    let mut map: NameMap<DockerImageDetails> = NameMap::new();
    assert_eq!(
        sort_services(&mut visiting, &mut visited, "a", &mut order, &mut map, &services).unwrap(),
        true
    );
    assert_eq!(order, vec!["b", "a"]);
    assert!(visiting.is_empty());
    assert_eq!(visited.len(), 2);
}

#[test]
fn port_mapping_is_split_at_first_colon() {
    let d = service_details("web", &svc(&[], "127.0.0.1:80:8080")).unwrap();
    assert_eq!(d.port, ("127.0.0.1".to_string(), "80:8080".to_string()));
}

#[test]
fn ports_errors() {
    let mut s = svc(&[], "80:80");
    s.ports = ComposePorts::Short(vec!["1:1".to_string(), "2:2".to_string()]);
    assert_eq!(
        service_details("web", &s).err().unwrap().message,
        "Error in service `web`: Invalid ports configuration. Only one port mapping in the format `host_port:container_port` is supported."
    );
    s.ports = ComposePorts::Short(vec![]);
    assert_eq!(
        service_details("web", &s).err().unwrap().message,
        "please add ports where you want to start service in the container"
    );
    s.ports = ComposePorts::Short(vec!["8080".to_string()]);
    assert_eq!(
        service_details("web", &s).err().unwrap().message,
        "getting error extracting ports of the service"
    );
    s.ports = ComposePorts::Long;
    assert!(service_details("web", &s).is_err());
}

#[test]
fn long_form_build_uses_its_context() {
    let mut s = svc(&[], "80:80");
    s.build_ = Some(ComposeBuild::Advanced("./services/api".to_string()));
    let d = service_details("web", &s).unwrap();
    assert_eq!(d.build, Some("./services/api".to_string()));
    assert_eq!(d.container_name, Some("c".to_string()));
}

#[test]
fn environment_list_and_errors() {
    let mut s = svc(&[], "80:80");
    s.environment = ComposeEnvironment::List(vec![
        "A=1".to_string(),
        "B=x=y".to_string(),
        "A=2".to_string(),
    ]);
    let d = service_details("web", &s).unwrap();
    let env = d.environment_vars.unwrap();
    assert_eq!(env.get("A").unwrap(), "2");
    assert_eq!(env.get("B").unwrap(), "x=y");
    assert!(env.get("C").is_none());

    s.environment = ComposeEnvironment::List(vec!["A=1".to_string(), "NOVALUE".to_string()]);
    assert_eq!(
        service_details("web", &s).err().unwrap().message,
        "cannot extract env variables from web service , please check again"
    );
    s.environment = ComposeEnvironment::KvPair;
    assert_eq!(
        service_details("web", &s).err().unwrap().message,
        "this format of environment variables is not supported , please give in list view"
    );
}

#[test]
fn container_name_defaults_to_image_when_built() {
    let mut s = svc(&[], "80:80");
    s.container_name = None;
    s.build_ = Some(ComposeBuild::Simple(".".to_string()));
    let d = service_details("web", &s).unwrap();
    assert_eq!(d.container_name, Some("nginx:latest".to_string()));
    assert_eq!(d.build, Some(".".to_string()));

    s.build_ = None;
    let d = service_details("web", &s).unwrap();
    assert_eq!(d.container_name, None);
}

#[test]
fn healthcheck_is_kept() {
    let mut s = svc(&[], "80:80");
    s.healthcheck = Some(ComposeHealthcheck {
        test: Some(HealthcheckTest::Single("curl".to_string())),
        interval: Some("5s".to_string()),
        timeout: None,
        retries: 3,
        start_period: None,
        start_interval: None,
        disable: false,
    });
    let d = service_details("web", &s).unwrap();
    let h = d.health_check.unwrap();
    assert_eq!(h.retries, 3);
    assert_eq!(h.interval, Some("5s".to_string()));
}

#[test]
fn add_service_reports_missing_entries() {
    let services = vec![entry("a", None)];
    let mut map: NameMap<DockerImageDetails> = NameMap::new();
    let e = add_service_to_service_map("a", &mut map, &services).err().unwrap();
    assert_eq!(
        e.message,
        "cannot extract service details from the docker compose file , please check"
    );
    let e = add_service_to_service_map("zzz", &mut map, &services).err().unwrap();
    assert_eq!(
        e.message,
        "cannot extract service details from the docker compose file , please check"
    );
}

#[test]
fn later_entry_of_a_name_wins() {
    let services = vec![
        entry("a", Some(svc(&[], "1:1"))),
        entry("a", Some(svc(&[], "2:2"))),
    ];
    let (map, order) = construct_docker_image_details_map(&services).unwrap();
    assert_eq!(order, vec!["a"]);
    assert_eq!(map.get("a").unwrap().port, ("2".to_string(), "2".to_string()));
}
