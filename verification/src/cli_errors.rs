//! The single error type of the tool: a message meant for the user.
use vstd::prelude::*;

verus! {

/// An error of the tool, carrying the message shown to the user.
#[derive(Debug, Clone)]
pub struct CliErrors {
    pub message: String,
}

/// Text of `CliErrors::wrong_cli_name`.
pub open spec fn wrong_cli_name_text() -> Seq<char> {
    "wrong cli command , try with DockYard ..."@
}

/// Text of `CliErrors::wrong_cli_command`.
pub open spec fn wrong_cli_command_text() -> Seq<char> {
    "this cli command is not supported by dockyard , try Up , Down , Status , Logs"@
}

/// Text of `CliErrors::file_name_extraction_fail`.
pub open spec fn file_name_extraction_fail_text() -> Seq<char> {
    "we are getting while extracting file"@
}

/// Text of `CliErrors::wrong_docker_compose_file_name`.
pub open spec fn wrong_docker_compose_file_name_text() -> Seq<char> {
    "the input docker compose file name is not correct , please check file name"@
}

/// Text of `CliErrors::wrong_file_path`.
pub open spec fn wrong_file_path_text() -> Seq<char> {
    "wrong file path"@
}

/// Text of `CliErrors::cannot_extract_service_details_from_docker_compose`.
pub open spec fn cannot_extract_service_details_text() -> Seq<char> {
    "cannot extract service details from the docker compose file , please check"@
}

/// Text of `CliErrors::not_supported_build_type` for a service name.
pub open spec fn not_supported_build_type_text(service_name: Seq<char>) -> Seq<char> {
    "error in service =>"@ + service_name
        + ", we dont support this build format , only simple build is supported like this folder or folder path to build"@
}

/// Text of `CliErrors::not_supported_ports_format` for a service name.
pub open spec fn not_supported_ports_format_text(service_name: Seq<char>) -> Seq<char> {
    "Error in service `"@ + service_name
        + "`: Invalid ports configuration. Only one port mapping in the format `host_port:container_port` is supported."@
}

impl CliErrors {
    pub fn new(message: String) -> (res: CliErrors)
        ensures
            res.message@ == message@,
    {
        CliErrors { message }
    }

    pub fn wrong_cli_name() -> (res: CliErrors)
        ensures
            res.message@ == wrong_cli_name_text(),
    {
        CliErrors { message: String::from_str("wrong cli command , try with DockYard ...") }
    }

    pub fn wrong_cli_command() -> (res: CliErrors)
        ensures
            res.message@ == wrong_cli_command_text(),
    {
        CliErrors {
            message: String::from_str(
                "this cli command is not supported by dockyard , try Up , Down , Status , Logs",
            ),
        }
    }

    pub fn file_name_extraction_fail() -> (res: CliErrors)
        ensures
            res.message@ == file_name_extraction_fail_text(),
    {
        CliErrors { message: String::from_str("we are getting while extracting file") }
    }

    pub fn wrong_docker_compose_file_name() -> (res: CliErrors)
        ensures
            res.message@ == wrong_docker_compose_file_name_text(),
    {
        CliErrors {
            message: String::from_str(
                "the input docker compose file name is not correct , please check file name",
            ),
        }
    }

    pub fn wrong_file_path() -> (res: CliErrors)
        ensures
            res.message@ == wrong_file_path_text(),
    {
        CliErrors { message: String::from_str("wrong file path") }
    }

    pub fn cannot_extract_service_details_from_docker_compose() -> (res: CliErrors)
        ensures
            res.message@ == cannot_extract_service_details_text(),
    {
        CliErrors {
            message: String::from_str(
                "cannot extract service details from the docker compose file , please check",
            ),
        }
    }

    pub fn not_supported_build_type(service_name: &str) -> (res: CliErrors)
        ensures
            res.message@ == not_supported_build_type_text(service_name@),
    {
        let message = String::from_str("error in service =>").concat(service_name).concat(
            ", we dont support this build format , only simple build is supported like this folder or folder path to build",
        );
        CliErrors { message }
    }

    pub fn not_supported_ports_format(service_name: &str) -> (res: CliErrors)
        ensures
            res.message@ == not_supported_ports_format_text(service_name@),
    {
        let message = String::from_str("Error in service `").concat(service_name).concat(
            "`: Invalid ports configuration. Only one port mapping in the format `host_port:container_port` is supported.",
        );
        CliErrors::new(message)
    }
}

} // verus!
