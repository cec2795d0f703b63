# drbd_ha

A library for managing DRBD high-availability clusters driven by drbd-reactor: it
generates DRBD resource files and drbd-reactor promoter files, reads DRBD and drbd-reactor
status output, and decides what the cluster operations (creating, activating, deactivating,
evicting and deleting HA profiles, syncing their configuration, managing nodes and virtual
IPs) run and answer: for creation, activation, deactivation, deletion and the details of
a profile it lays down the steps one at a time (`create_flow`, `activation_flow`,
`delete_flow`, `details_flow`), and `app/` runs the commands. Its logic is verified with
Verus: every public function states what it returns in its `ensures`, and the laws that tie functions together are proof functions.

Layout:

- `src/` — the verified library, one module per concern: text handling (`text`), ordered
  option maps (`option_map`), file generation (`config_gen`), status parsing (`drbd_status`,
  `reactor_config`, `profile_status`, `profile_details`), nodes (`nodes`), the profile
  operations (`profiles`, `profile_create`, `profile_control`, `profile_delete`,
  `profile_toml`, `start_array`, `vip`, `ha_ops`) and their step functions (`create_flow`,
  `activation_flow`, `delete_flow`, `details_flow`), resource agents (`resource_agents`), the dashboard
  (`dashboard`), the SSH policy and command proxy (`dispatch`), and what written files read
  back as (`promoter_readback`, `resource_readback`).
- `tests/` — tests run against the compiled library.
- `app/` — the I/O around the library: commands, files, the process-wide proxy setting,
  serializable copies of the request and response types, and the operations that run the
  library's decisions (`flows`, `create`, `control`, `delete`, `details`, `ops`).

The generated DRBD and promoter files follow the layout stated in `config_gen`: one line
per setting, with no blank lines inside a section.
