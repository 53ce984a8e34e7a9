use dockyard::container_status::{
    docker_conatiner_status, ContainerStatusInfo, HostInfo, NetworkInfo, PortBindingInfo,
    StateInfo,
};

fn info() -> ContainerStatusInfo {
    ContainerStatusInfo {
        id: Some("abc123".to_string()),
        name: Some("//web_1".to_string()),
        image: Some("nginx:latest".to_string()),
        created: Some("2024-01-01T00:00:00Z".to_string()),
        platform: Some((Some("linux".to_string()), Some("amd64".to_string()))),
        state: Some(StateInfo {
            status: Some("RUNNING".to_string()),
            health: Some(Some("HEALTHY".to_string())),
            pid: Some(4242),
            started_at: Some("2024-01-01T00:00:01Z".to_string()),
            oom_killed: Some(false),
            restarting: None,
            exit_code: Some(-1),
        }),
        path: Some("/docker-entrypoint.sh".to_string()),
        args: Some(vec!["nginx".to_string(), "-g".to_string(), "daemon off;".to_string()]),
        networks: Some(vec![NetworkInfo {
            name: "shop".to_string(),
            ip_address: Some("172.18.0.2".to_string()),
            gateway: None,
        }]),
        host: Some(HostInfo {
            port_bindings: Some(vec![
                PortBindingInfo {
                    container_port: "80/tcp".to_string(),
                    bindings: Some(vec![
                        (Some("0.0.0.0".to_string()), Some("8080".to_string())),
                        (None, Some("8081".to_string())),
                    ]),
                },
                PortBindingInfo { container_port: "443/tcp".to_string(), bindings: None },
            ]),
            restart_policy: Some("no".to_string()),
        }),
        restart_count: Some(2),
    }
}

#[test]
fn full_report() {
    let expected = "\nContainer Status\n================\n\n\
ID            : abc123\n\
Name          : web_1\n\
Image         : nginx:latest\n\
Created       : 2024-01-01T00:00:00Z\n\
Platform      : linux/amd64\n\n\
State\n-----\n\
Status        : RUNNING\n\
Health        : HEALTHY\n\
PID           : 4242\n\
Started At    : 2024-01-01T00:00:01Z\n\
OOM Killed    : false\n\
Restarting    : false\n\
Exit Code     : -1\n\n\
Process\n-------\n\
Entrypoint    : /docker-entrypoint.sh\n\
Command       : nginx -g daemon off;\n\
\nNetwork\n-------\n\
Network       : shop\n\
IP Address    : 172.18.0.2\n\
Gateway       : \n\
\nPorts\n-----\n\
80/tcp -> 0.0.0.0:8080\n\
80/tcp -> :8081\n\
\nRestart Policy\n--------------\n\
Policy        : no\n\
Restart Count : 2\n";
    assert_eq!(docker_conatiner_status(&info()).unwrap(), expected);
}

#[test]
fn sparse_report() {
    let mut i = info();
    i.platform = None;
    i.args = None;
    i.networks = None;
    i.host = None;
    i.restart_count = None;
    if let Some(s) = i.state.as_mut() {
        s.health = Some(None);
        s.pid = None;
        s.oom_killed = Some(true);
    }
    let report = docker_conatiner_status(&i).unwrap();
    assert!(report.contains("Platform      : unknown\n\n"));
    assert!(report.contains("Health        : NONE\n"));
    assert!(report.contains("PID           : 0\n"));
    assert!(report.contains("OOM Killed    : true\n"));
    assert!(!report.contains("Command"));
    assert!(report.ends_with("\nNetwork\n-------\n\nPorts\n-----\nRestart Count : 0\n"));
}

#[test]
fn missing_state_is_an_error() {
    let mut i = info();
    i.state = None;
    assert_eq!(docker_conatiner_status(&i).unwrap_err().message, "Missing container state");
}

#[test]
fn state_without_status_is_an_error() {
    let mut i = info();
    if let Some(s) = i.state.as_mut() {
        s.status = None;
    }
    assert_eq!(docker_conatiner_status(&i).unwrap_err().message, "Missing container status");
}

#[test]
fn extreme_numbers_are_written_in_full() {
    let mut i = info();
    i.restart_count = Some(i64::MIN);
    if let Some(s) = i.state.as_mut() {
        s.pid = Some(i64::MAX);
        s.exit_code = Some(0);
    }
    let report = docker_conatiner_status(&i).unwrap();
    assert!(report.contains("PID           : 9223372036854775807\n"));
    assert!(report.contains("Exit Code     : 0\n"));
    assert!(report.ends_with("Restart Count : -9223372036854775808\n"));
}
