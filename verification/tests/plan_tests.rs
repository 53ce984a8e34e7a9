use dockyard::cli_errors::CliErrors;
use dockyard::compose::ComposeHealthcheck;
use dockyard::compose_parser::DockerImageDetails;
use dockyard::name_map::NameMap;
use dockyard::yaml_parser::get_network_config;
use dockyard::start_plan::{
    check_image_locally, container_create_spec, container_status, existing_network_plan,
    inspect_type_for,
    network_exists, network_start_step, plan_service_start, service_container_map,
    unsupported_build_source, wait_step, ContainerInspectType, ContainerSummaryInfo, ImageSource,
    InspectedState, NetworkStartStep, PollOutcome,
};

fn health() -> ComposeHealthcheck {
    ComposeHealthcheck {
        test: None,
        interval: Some("2s".to_string()),
        timeout: None,
        retries: 5,
        start_period: None,
        start_interval: None,
        disable: false,
    }
}

fn details(build: Option<&str>, health_check: Option<ComposeHealthcheck>) -> DockerImageDetails {
    DockerImageDetails {
        build: build.map(|b| b.to_string()),
        image: Some("shop/web:1".to_string()),
        container_name: Some("web_1".to_string()),
        health_check,
        port: ("8080".to_string(), "80".to_string()),
        environment_vars: None,
    }
}

fn summary(id: Option<&str>, service: Option<&str>) -> ContainerSummaryInfo {
    let labels = service.map(|s| {
        let mut l = NameMap::new();
        l.insert("com.docker.compose.project".to_string(), "shop".to_string());
        l.insert("com.docker.compose.service".to_string(), s.to_string());
        l
    });
    ContainerSummaryInfo { id: id.map(|i| i.to_string()), labels }
}

#[test]
fn network_probe() {
    assert_eq!(network_exists("shop", None).unwrap(), true);
    let missing =
        CliErrors::new("Docker responded with status code 404: network shop not found".to_string());
    assert_eq!(network_exists("shop", Some(missing)).unwrap(), false);
    let other = CliErrors::new("connection refused".to_string());
    assert_eq!(network_exists("shop", Some(other)).unwrap_err().message, "connection refused");
}

#[test]
fn containers_by_service() {
    let cs = vec![summary(Some("c1"), Some("web")), summary(Some("c2"), Some("db"))];
    let m = service_container_map(&cs).unwrap();
    assert_eq!(m.get("web").unwrap(), "c1");
    assert_eq!(m.get("db").unwrap(), "c2");

    let e = service_container_map(&vec![summary(None, Some("web"))]).unwrap_err();
    assert_eq!(e.message, "unable to extract conatiner id");
    let e = service_container_map(&vec![summary(Some("c9"), None)]).unwrap_err();
    assert_eq!(e.message, "not able to extarct lables from conatiner = c9 ");
    let mut no_service = summary(Some("c3"), None);
    let mut l = NameMap::new();
    l.insert("com.docker.compose.project".to_string(), "shop".to_string());
    no_service.labels = Some(l);
    let e = service_container_map(&vec![no_service]).unwrap_err();
    assert_eq!(e.message, "the service name is not present , internal error");
}

#[test]
fn running_services_are_restarted() {
    let mut running = NameMap::new();
    running.insert("web".to_string(), "c1".to_string());
    let mut services = NameMap::new();
    services.insert("web".to_string(), details(None, Some(health())));
    services.insert("db".to_string(), details(None, None));
    match network_start_step("web", &running, &services).unwrap() {
        NetworkStartStep::Restart { container_id, image_tag, inspect_type } => {
            assert_eq!(container_id, "c1");
            assert_eq!(image_tag, "shop/web:1");
            assert!(matches!(inspect_type, ContainerInspectType::Health(_)));
        }
        NetworkStartStep::Start => panic!("expected a restart"),
    }
    assert!(matches!(network_start_step("db", &running, &services).unwrap(), NetworkStartStep::Start));
    let mut no_image = NameMap::new();
    let mut d = details(None, None);
    d.image = None;
    no_image.insert("web".to_string(), d);
    assert_eq!(
        network_start_step("web", &running, &no_image).err().unwrap().message,
        "no image name fount for service web"
    );
    let empty: NameMap<DockerImageDetails> = NameMap::new();
    assert_eq!(
        network_start_step("web", &running, &empty).err().unwrap().message,
        "serrive details not present in internal struct , please delete all services and re run up command"
    );
}

#[test]
fn start_plans() {
    let mut services = NameMap::new();
    services.insert("here".to_string(), details(Some("."), None));
    services.insert("git".to_string(), details(Some("https://github.com/a/b.git"), None));
    services.insert("ssh".to_string(), details(Some("git@github.com:a/b.git"), None));
    services.insert("dir".to_string(), details(Some("./services/api"), None));
    services.insert("scp".to_string(), details(Some("deploy@example.com:shop/web.git"), None));
    services.insert("file".to_string(), details(Some("file:///srv/repos/web"), None));
    services.insert("colon".to_string(), details(Some("./dir:with/colon"), None));
    services.insert("img".to_string(), details(None, Some(health())));
    let p = plan_service_start("here", &services).unwrap();
    assert!(matches!(p.source, ImageSource::CurrentFolder));
    assert_eq!(p.container_name, "web_1");
    assert_eq!(p.image_name, "shop/web:1");
    assert_eq!(p.host_port, Some("8080".to_string()));
    assert_eq!(p.cont_port, Some("80".to_string()));
    assert!(matches!(p.inspect_type, ContainerInspectType::Status));
    match plan_service_start("git", &services).unwrap().source {
        ImageSource::Remote(u) => assert_eq!(u, "https://github.com/a/b.git"),
        _ => panic!("expected a remote build"),
    }
    match plan_service_start("ssh", &services).unwrap().source {
        ImageSource::Remote(u) => assert_eq!(u, "git@github.com:a/b.git"),
        _ => panic!("expected a remote build"),
    }
    match plan_service_start("dir", &services).unwrap().source {
        ImageSource::Folder(p) => assert_eq!(p, "./services/api"),
        _ => panic!("expected a local folder build"),
    }
    for remote in ["scp", "file"] {
        assert!(matches!(plan_service_start(remote, &services).unwrap().source, ImageSource::Remote(_)));
    }
    assert!(matches!(plan_service_start("colon", &services).unwrap().source, ImageSource::Folder(_)));
    let p = plan_service_start("img", &services).unwrap();
    assert!(matches!(p.source, ImageSource::Image));
    assert!(matches!(p.inspect_type, ContainerInspectType::Health(_)));
    assert_eq!(
        plan_service_start("nope", &services).err().unwrap().message,
        "getting some erro whil extracting nope"
    );
    let mut d = details(None, None);
    d.container_name = None;
    services.insert("anon".to_string(), d);
    assert_eq!(
        plan_service_start("anon", &services).err().unwrap().message,
        "no container name found for service =  anon"
    );
    let mut d = details(None, None);
    d.image = None;
    services.insert("noimg".to_string(), d);
    assert_eq!(
        plan_service_start("noimg", &services).err().unwrap().message,
        "no image name fount for service noimg"
    );
    assert_eq!(
        unsupported_build_source().message,
        "currently we are supporting building only current dir and public git repo and images present locally or in docker hub"
    );
}

#[test]
fn local_images() {
    let tags = vec![vec![], vec!["nginx:latest".to_string(), "nginx:1".to_string()]];
    assert!(check_image_locally(&tags, "nginx:latest"));
    assert!(check_image_locally(&tags, "nginx:1"));
    assert!(!check_image_locally(&tags, "nginx:2"));
    assert!(!check_image_locally(&vec![], "nginx:latest"));
}

#[test]
fn create_specs() {
    let mut labels = NameMap::new();
    labels.insert("com.docker.compose.project".to_string(), "shop".to_string());
    let spec = container_create_spec(
        "web_1",
        "web",
        "shop/web:1",
        &ContainerInspectType::Health(health()),
        Some("8080".to_string()),
        Some("80".to_string()),
        &get_network_config("shop"),
        &mut labels,
    )
    .unwrap();
    assert_eq!(spec.name, "web_1");
    assert_eq!(spec.image, "shop/web:1");
    assert_eq!(spec.network.endpoints, vec!["shop".to_string()]);
    assert_eq!(spec.exposed_port, Some("80/tcp".to_string()));
    let b = spec.port_binding.unwrap();
    assert_eq!(b.container_port_key, "80/tcp");
    assert_eq!(b.host_ip, "0.0.0.0");
    assert_eq!(b.host_port, "8080");
    assert_eq!(spec.auto_remove, Some(false));
    assert_eq!(spec.labels.get("com.docker.compose.service").unwrap(), "web");
    assert_eq!(spec.labels.get("com.docker.compose.project").unwrap(), "shop");
    assert_eq!(labels.get("com.docker.compose.service").unwrap(), "web");
    let h = spec.health.unwrap();
    assert_eq!(h.interval, Some(2_000_000_000));
    assert_eq!(h.retries, Some(5));

    let spec = container_create_spec(
        "db_1",
        "db",
        "postgres",
        &ContainerInspectType::Status,
        None,
        Some("5432".to_string()),
        &get_network_config("shop"),
        &mut labels,
    )
    .unwrap();
    assert!(spec.exposed_port.is_none());
    assert!(spec.port_binding.is_none());
    assert!(spec.auto_remove.is_none());
    assert!(spec.health.is_none());

    let mut bad = health();
    bad.interval = Some("".to_string());
    let mut fresh = NameMap::new();
    let e = container_create_spec(
        "x",
        "x",
        "x",
        &ContainerInspectType::Health(bad),
        None,
        None,
        &get_network_config("shop"),
        &mut fresh,
    )
    .err()
    .unwrap();
    assert_eq!(e.message, "value was empty");
    assert!(fresh.get("com.docker.compose.service").is_none());
}

#[test]
fn inspected_values() {
    let status = ContainerInspectType::Status;
    let health_watch = ContainerInspectType::Health(health());
    let st = |s: Option<&str>, h: Option<Option<&str>>| InspectedState {
        status: s.map(|x| x.to_string()),
        health_status: h.map(|o| o.map(|x| x.to_string())),
    };
    assert_eq!(container_status(&status, Some(st(Some("running"), None))).unwrap(), "running");
    assert_eq!(
        container_status(&status, Some(st(None, None))).unwrap_err().message,
        "health check is not defined for this service"
    );
    assert_eq!(
        container_status(&status, None).unwrap_err().message,
        "getting none while inspecting the conatiner"
    );
    assert_eq!(
        container_status(&health_watch, Some(st(None, Some(Some("healthy"))))).unwrap(),
        "healthy"
    );
    assert_eq!(
        container_status(&health_watch, Some(st(None, None))).unwrap_err().message,
        "getting error in heath check"
    );
    assert_eq!(
        container_status(&health_watch, Some(st(None, Some(None)))).unwrap_err().message,
        "GETTING ERROR IN HEALTH CHECK STATUS"
    );
}

#[test]
fn waiting_for_containers() {
    let status = ContainerInspectType::Status;
    let health_watch = ContainerInspectType::Health(health());
    assert_eq!(wait_step(&status, "running"), PollOutcome::Ready);
    assert_eq!(wait_step(&status, "created"), PollOutcome::Wait { pause_secs: 0 });
    assert_eq!(wait_step(&health_watch, "healthy"), PollOutcome::Ready);
    assert_eq!(wait_step(&health_watch, "starting"), PollOutcome::Wait { pause_secs: 3 });
    assert!(matches!(inspect_type_for(&details(None, None)), ContainerInspectType::Status));
    assert!(matches!(
        inspect_type_for(&details(None, Some(health()))),
        ContainerInspectType::Health(_)
    ));
}

#[test]
fn existing_network_without_containers_starts_afresh() {
    assert!(existing_network_plan(&vec![]).unwrap().is_none());
    let cs = vec![summary(Some("c1"), Some("web"))];
    let m = existing_network_plan(&cs).unwrap().unwrap();
    assert_eq!(m.get("web").unwrap(), "c1");
    let e = existing_network_plan(&vec![summary(None, None)]).unwrap_err();
    assert_eq!(e.message, "unable to extract conatiner id");
}
