use dockyard::yaml_parser::{
    create_lables, file_name, get_network_config, is_compose_file_name, validate_file_path,
    FilePathType,
};

#[test]
fn file_name_of_a_path() {
    assert_eq!(
        file_name("./deploy/compose.yaml", FilePathType::FilePath, "/ignored").unwrap(),
        "compose.yaml"
    );
    assert_eq!(
        file_name("ignored", FilePathType::CurrentDir, "/home/me/shop").unwrap(),
        "shop"
    );
}

#[test]
fn file_name_fails_without_a_last_name() {
    assert_eq!(
        file_name("/", FilePathType::FilePath, "").unwrap_err().message,
        "we are getting while extracting file"
    );
    assert!(file_name("..", FilePathType::FilePath, "").is_err());
}

#[test]
fn compose_file_names() {
    for n in [
        "compose.yaml",
        "compose.yml",
        "docker-compose.yaml",
        "docker-compose.yml",
        "docker-compose.override.yml",
    ] {
        assert!(is_compose_file_name(n));
    }
    assert!(!is_compose_file_name("compose.json"));
    assert!(!is_compose_file_name(""));
}

#[test]
fn file_path_checks() {
    assert_eq!(
        validate_file_path("compose.yaml", false).unwrap_err().message,
        "wrong file path"
    );
    assert_eq!(
        validate_file_path("app.yaml", true).unwrap_err().message,
        "the input docker compose file name is not correct , please check file name"
    );
    assert!(validate_file_path("docker-compose.yml", true).is_ok());
}

#[test]
fn project_labels_and_network() {
    let labels = create_lables("shop");
    assert_eq!(labels.get("com.docker.compose.project").unwrap(), "shop");
    assert_eq!(labels.entries().len(), 1);
    assert_eq!(get_network_config("shop").endpoints, vec!["shop".to_string()]);
}

#[test]
fn last_names_of_plain_paths() {
    let name = |p: &str| file_name(p, FilePathType::FilePath, "").ok();
    assert_eq!(name("foo.txt/.//"), Some("foo.txt".to_string()));
    assert_eq!(name("./a"), Some("a".to_string()));
    assert_eq!(name("a/./b"), Some("b".to_string()));
    assert_eq!(name("a//b/"), Some("b".to_string()));
    assert_eq!(name("..a"), Some("..a".to_string()));
    assert_eq!(name("/etc/compose.yml"), Some("compose.yml".to_string()));
    assert_eq!(name("a/.."), None);
    assert_eq!(name(".."), None);
    assert_eq!(name("."), None);
    assert_eq!(name("./."), None);
    assert_eq!(name("/"), None);
    assert_eq!(name(""), None);
}
