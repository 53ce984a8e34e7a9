# DockYard

A small Docker Compose runner: `dockyard DockYard <Command> <argument>` with the
commands `Up <compose file>`, `Down <network>`, `Stop <network>`,
`Logs <container>` and `ContainerStatus <container>`.

The decisions of the tool live in a library verified with Verus (`src/`):

- `cli_commands`, `cli_errors`: the command line check and the error texts.
- `compose`, `compose_file`: the parts of a compose file the tool reads, and
  the parse of its text (through `docker_compose_types` and `serde_yaml`).
- `compose_parser`, `service_sort`, `service_sort_laws`, `service_view_laws`:
  each service's details, the start order (every service after its
  dependencies, cycles refused) and the proofs of what that order guarantees.
- `health`: health checks as Docker takes them, durations in nanoseconds
  (through `humantime`).
- `start_plan`: what `Up` does for each service: restart or start, where the
  image comes from, how the container is created, when it counts as up.
- `yaml_parser`, `docker_ops`, `container_status`: file checks, labels and
  network settings, `tar` arguments, listing filters, the status report.
- `service_logs`: the coloured lines the tool prints (through `owo-colors`).
- `name_map`, `text`: a name-keyed map and string helpers.

`app/` is the command itself: argument parsing, the Docker daemon (`bollard`),
`git`, `tar`, files and printing. `tests/` runs the library on concrete inputs.
