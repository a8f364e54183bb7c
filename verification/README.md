# vultr_cli

A command-line client for the Vultr API whose decision logic is verified with Verus.

- `src/` is the verified library: the data model of the API, the configuration (profiles,
  settings, `config get`/`set` and how they combine with the command line), request paths
  and query strings, the retry and backoff policy, the mapping of HTTP answers to errors and exit
  codes, the steps of `--wait` polling and deletion checks, list filtering and pagination,
  and the table rows shown to the user.
- `app/` is the program around it: argument parsing, reading and writing the
  configuration file, the HTTP transport, the polling
  loops with their sleeps and progress spinners, JSON (de)serialisation and printing.
- `tests/` runs the library on concrete values.

The program in `app/` covers a subset of the Vultr API's commands: instances, SSH keys,
startup scripts, snapshots, block storage, firewalls, VPCs, bare metal (list, get, delete),
a cluster's kubeconfig, regions, plans, operating systems, logs, configuration and shell
completions. The API key is taken from `--api-key` or `VULTR_API_KEY`; it is not kept in the
operating system's keyring.
