# vmize

Runs tasks in virtual machines that live only as long as the task does.

The library under `src/` holds the rules: what a task directory has to look like, how a machine
gets its name, port, disk and QEMU command line, the order in which a task's scripts run and its
output comes back, how tasks hand artifacts on to the next one of their chain, and what the
dashboards answer and tell their subscribers. It does no input or output. Where the host is
needed, a state machine says what to ask of it and takes the answer back. Every function is
verified with Verus against a contract over sequences, maps and numbers.

- `task`: `task.json` and the checks on it.
- `worker`: the run of a task, chains of tasks, kernel configuration checks.
- `batch`: the run of a directory of scripts.
- `vm`: the start of a machine, its record, ports and locks, images, cloud-init and QEMU.
- `dashboard`, `vm_dashboard`: queues, events and replies of the two web dashboards.
- `text`, `path`, `order`, `shell`, `json`, `replay`, `reply`: what the rest is built from.

`app/` is the program around the library: the command line, files, processes, SSH, downloads and
the web servers. `tests/` runs the library on concrete values.
