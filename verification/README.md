# slurm_oddity

A Slurm SPANK plugin (`stage0`) and its helper command (`stage1`) that run
each job step's tasks inside a Podman container described by an
environment definition file.

- `src/` is the verified library (Verus): every decision the plugin and
  the helper take, with its contract.
  - `text`, `envmap`, `expand`: strings, decimal numbers, paths, variable
    maps and shell-style expansion.
  - `stage0`: the plugin's configuration, state, exchanged data, hook
    dispatch, helper launch, logging, and how a task joins the container
    (namespaces, environment import, working directory).
  - `stage1`: the helper's configuration and its update by the
    launch-control service, self-update, job and run identity, image
    import and container start as state machines, the coordination of the
    tasks of a node, and cleanup.
- `app/` is the program around it: command line, stdin/stdout, files,
  processes, Podman and Slurm calls.
- `tests/` runs the library on concrete values.
