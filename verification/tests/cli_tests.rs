use dockyard::cli_commands::{validate_command, CliCommands, CliName, CLI};
use dockyard::cli_errors::CliErrors;

#[test]
fn validate_command_accepts_every_command() {
    assert_eq!(validate_command("DockYard", "Up").unwrap(), CliCommands::Up);
    assert_eq!(validate_command("DockYard", "Down").unwrap(), CliCommands::Down);
    assert_eq!(validate_command("DockYard", "Logs").unwrap(), CliCommands::Logs);
    assert_eq!(
        validate_command("DockYard", "ContainerStatus").unwrap(),
        CliCommands::ContainerStatus
    );
    assert_eq!(validate_command("DockYard", "Stop").unwrap(), CliCommands::Stop);
}

#[test]
fn validate_command_rejects_wrong_name_first() {
    let e = validate_command("dockyard", "Nope").unwrap_err();
    assert_eq!(e.message, "wrong cli command , try with DockYard ...");
}

#[test]
fn validate_command_rejects_unknown_command() {
    let e = validate_command("DockYard", "Status").unwrap_err();
    assert_eq!(
        e.message,
        "this cli command is not supported by dockyard , try Up , Down , Status , Logs"
    );
}

#[test]
fn command_text_round_trips() {
    for c in [
        CliCommands::Up,
        CliCommands::Down,
        CliCommands::Logs,
        CliCommands::ContainerStatus,
        CliCommands::Stop,
    ] {
        let text = c.to_string();
        assert_eq!(CliCommands::from_str(&text), Ok(c));
    }
    assert_eq!(CliCommands::from_str("up"), Err(()));
    assert_eq!(CliName::DockYard.to_string(), "DockYard");
    assert_eq!(CliCommands::ContainerStatus.to_string(), "ContainerStatus");
}

#[test]
fn cli_struct_holds_arguments() {
    let cli = CLI {
        cli_name: "DockYard".to_string(),
        cli_command: "Up".to_string(),
        argument: "./compose.yaml".to_string(),
    };
    assert_eq!(validate_command(&cli.cli_name, &cli.cli_command).unwrap(), CliCommands::Up);
    assert_eq!(cli.argument, "./compose.yaml");
}

#[test]
fn error_messages() {
    assert_eq!(CliErrors::new("boom".to_string()).message, "boom");
    assert_eq!(CliErrors::wrong_file_path().message, "wrong file path");
    assert_eq!(
        CliErrors::file_name_extraction_fail().message,
        "we are getting while extracting file"
    );
    assert_eq!(
        CliErrors::wrong_docker_compose_file_name().message,
        "the input docker compose file name is not correct , please check file name"
    );
    assert_eq!(
        CliErrors::cannot_extract_service_details_from_docker_compose().message,
        "cannot extract service details from the docker compose file , please check"
    );
    assert_eq!(
        CliErrors::not_supported_build_type("web").message,
        "error in service =>web, we dont support this build format , only simple build is supported like this folder or folder path to build"
    );
    assert_eq!(
        CliErrors::not_supported_ports_format("web").message,
        "Error in service `web`: Invalid ports configuration. Only one port mapping in the format `host_port:container_port` is supported."
    );
}
