//! DockYard: a small Docker Compose runner.
//!
//! The library holds the verified logic: command validation, compose-service
//! extraction, dependency ordering, health-check conversion, container plans and
//! the text the tool prints. Talking to the Docker daemon lives in `app/`.
pub mod cli_errors;
pub mod cli_commands;
pub mod text;
pub mod name_map;
pub mod compose;
pub mod compose_file;
pub mod compose_parser;
pub mod service_sort;
pub mod service_sort_laws;
pub mod service_view_laws;
pub mod health;
pub mod service_logs;
pub mod yaml_parser;
pub mod start_plan;
pub mod docker_ops;
pub mod container_status;
