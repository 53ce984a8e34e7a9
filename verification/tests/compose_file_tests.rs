use dockyard::compose::{ComposeBuild, ComposeEnvironment, ComposePorts, HealthcheckTest};
use dockyard::compose_file::{compose_file_plan, compose_services};
use dockyard::service_sort::construct_docker_image_details_map;

const FILE: &str = "
services:
  web:
    image: shop/web:1
    build: .
    depends_on:
      - api
    ports:
      - \"8080:80\"
    environment:
      - MODE=prod
    healthcheck:
      test: [\"CMD\", \"curl\", \"-f\", \"http://localhost\"]
      interval: 5s
      retries: 3
  api:
    image: shop/api:1
    container_name: api_1
    depends_on:
      db:
        condition: service_healthy
    ports:
      - \"9000:9000\"
  db:
    image: postgres:16
    container_name: db_1
    ports:
      - \"5432:5432\"
    healthcheck:
      test: pg_isready
";

#[test]
fn services_are_read_in_file_order() {
    let services = compose_services(FILE).unwrap();
    let names: Vec<&str> = services.iter().map(|(n, _)| n.as_str()).collect();
    assert_eq!(names, vec!["web", "api", "db"]);

    let web = services[0].1.as_ref().unwrap();
    assert_eq!(web.depends_on, vec!["api".to_string()]);
    assert!(matches!(&web.build_, Some(ComposeBuild::Simple(p)) if p == "."));
    assert_eq!(web.image, Some("shop/web:1".to_string()));
    assert_eq!(web.container_name, None);
    assert!(matches!(&web.ports, ComposePorts::Short(p) if p == &vec!["8080:80".to_string()]));
    assert!(matches!(&web.environment, ComposeEnvironment::List(v) if v == &vec!["MODE=prod".to_string()]));
    let h = web.healthcheck.as_ref().unwrap();
    assert_eq!(h.interval, Some("5s".to_string()));
    assert_eq!(h.retries, 3);
    assert_eq!(h.timeout, None);
    assert!(matches!(&h.test, Some(HealthcheckTest::Multiple(v)) if v.len() == 4));

    let api = services[1].1.as_ref().unwrap();
    assert_eq!(api.depends_on, vec!["db".to_string()]);
    assert!(api.build_.is_none());
    assert!(api.healthcheck.is_none());

    let db = services[2].1.as_ref().unwrap();
    let h = db.healthcheck.as_ref().unwrap();
    assert!(matches!(&h.test, Some(HealthcheckTest::Single(s)) if s == "pg_isready"));
}

#[test]
fn file_services_start_in_dependency_order() {
    let services = compose_services(FILE).unwrap();
    let (map, order) = construct_docker_image_details_map(&services).unwrap();
    assert_eq!(order, vec!["db", "api", "web"]);
    assert_eq!(map.get("web").unwrap().container_name, Some("shop/web:1".to_string()));
    assert_eq!(map.get("api").unwrap().port, ("9000".to_string(), "9000".to_string()));
}

#[test]
fn other_forms_are_kept_apart() {
    let text = "
services:
  a:
    build:
      context: ./a
    ports:
      - target: 80
        published: 8080
    environment:
      MODE: prod
  b:
";
    let services = compose_services(text).unwrap();
    let a = services[0].1.as_ref().unwrap();
    assert!(matches!(&a.build_, Some(ComposeBuild::Advanced(c)) if c == "./a"));
    assert!(matches!(a.ports, ComposePorts::Long));
    assert!(matches!(a.environment, ComposeEnvironment::KvPair));
    assert!(a.depends_on.is_empty());
    assert_eq!(services[1].0, "b");
    assert!(services[1].1.is_none());
}

#[test]
fn text_that_is_not_a_compose_file_is_refused() {
    let text = "services: [1, 2";
    let e = compose_services(text).unwrap_err();
    assert!(!e.message.is_empty());
    assert_ne!(e.message, text);
    assert!(compose_services("services:\n  a:\n    image: [\n").is_err());
}

#[test]
fn file_text_gives_details_and_start_order() {
    let (map, order) = compose_file_plan(FILE).unwrap();
    assert_eq!(order, vec!["db", "api", "web"]);
    assert_eq!(map.get("db").unwrap().port, ("5432".to_string(), "5432".to_string()));
    assert!(compose_file_plan("services: [1, 2").is_err());
    let cyclic = "services:\n  a:\n    depends_on: [b]\n    ports: [\"1:1\"]\n  b:\n    depends_on: [a]\n    ports: [\"2:2\"]\n";
    assert_eq!(
        compose_file_plan(cyclic).unwrap_err().message,
        "there is a cyclic dependecy in the services , please check and resolve it"
    );
}
