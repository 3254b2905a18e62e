# warlock

A control plane for Firecracker microVMs on a single host: an HTTP API that creates, lists and
deletes VMs, and SSH access to their consoles.

- `src/` is the library. It decides what is done: it validates requests, accounts for the host's
  vCPUs and memory, hands out subnets, names the commands to run and what follows from their
  outcome, judges the host at startup, sweeps up after a crash, and lets SSH clients in. Every
  function has a contract that Verus proves. What is taken from other crates without proof stands
  behind functions whose doc comments say what is claimed.
- `app/` is the server around it: it runs the commands, talks to Firecracker, the gateway and the
  clients, and reads and writes files.
- `tests/` runs the library.

An operation that needs the outside world in its middle is a machine: it names what to do next,
takes the outcome, and goes on. Creating a VM goes through `handlers::vm::create`,
`rootfs_copied`, `network_set_up`, `VmPlan::reserve`, `setup_firecracker_instance` and
`StartingVm::started` or `StartingVm::failed`.

VMs need Linux. Where it matters, the library takes the `platform::Platform` as an argument: on
other systems it checks the two binaries only, sets up no network and sweeps nothing up, so that
the server can be developed there.

What holds over the whole life of a VM is stated and proved in `handlers::lifecycle`.
