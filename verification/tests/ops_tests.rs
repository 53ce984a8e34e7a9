use dockyard::docker_ops::{
    container_id_and_image, container_id_of, current_folder_tar_args, list_filter, tar_stream_args,
};
use dockyard::name_map::NameMap;

#[test]
fn tar_arguments() {
    let common = [
        "--exclude=target",
        "--exclude=.git",
        "--no-xattrs",
        "--no-acls",
        "--no-fflags",
        "-cf",
        "-",
    ];
    let mut with_path: Vec<&str> = common.to_vec();
    with_path.extend(["-C", "/tmp/repo", "."]);
    assert_eq!(tar_stream_args(Some("/tmp/repo")), with_path);
    let mut here: Vec<&str> = common.to_vec();
    here.push(".");
    assert_eq!(tar_stream_args(None), here);
    assert_eq!(
        current_folder_tar_args(),
        vec![
            "--no-xattrs",
            "--exclude=target",
            "--exclude=.git",
            "--no-acls",
            "--no-fflags",
            "-cf",
            "-",
            "."
        ]
    );
}

#[test]
fn list_filters() {
    assert_eq!(
        list_filter("network", "shop"),
        Some(("network".to_string(), "shop".to_string()))
    );
    assert_eq!(list_filter("", "shop"), None);
    assert_eq!(list_filter("network", ""), None);
}

#[test]
fn container_ids() {
    assert_eq!(container_id_of(Some("abc".to_string())).unwrap(), "abc");
    assert_eq!(container_id_of(None).unwrap_err().message, "cannot find container id");
    assert_eq!(
        container_id_and_image(Some("abc".to_string()), Some("nginx".to_string())).unwrap(),
        ("abc".to_string(), "nginx".to_string())
    );
    assert_eq!(
        container_id_and_image(Some("abc".to_string()), None).unwrap_err().message,
        "cannot find container id"
    );
    assert_eq!(
        container_id_and_image(None, Some("nginx".to_string())).unwrap_err().message,
        "cannot find container id"
    );
}

#[test]
fn name_map_replaces_and_keeps_order() {
    let mut m: NameMap<String> = NameMap::new();
    assert!(m.get("a").is_none());
    m.insert("a".to_string(), "1".to_string());
    m.insert("b".to_string(), "2".to_string());
    m.insert("a".to_string(), "3".to_string());
    assert_eq!(m.get("a").unwrap(), "3");
    assert_eq!(m.get("b").unwrap(), "2");
    let copy = m.duplicate();
    assert_eq!(copy.get("a").unwrap(), "3");
    assert_eq!(copy.entries().len(), m.entries().len());
}
