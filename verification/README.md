# rustpod

A minimal container engine: it pulls images from Docker Hub, runs containers
with the `crun` OCI runtime and sets up their network with `netavark`.

- `src/` is the library, verified with Verus. It decides everything the
  engine does: what each command means, where images and bundles live, the
  registry requests and how a manifest list is resolved, the overrides made
  to the runtime spec and the rewriting of its file (on its own JSON model,
  with serde_json reading and printing the text behind trusted wrappers in
  `json_text.rs`), the network setup request, and the step machines that
  drive a pull (`pull.rs`), a run (`run.rs`), the removal of images
  (`images.rs`) and the per-container `crun` commands (`crun.rs`).
  `laws.rs` and the `law_*` proof functions state the properties that relate
  these parts.
- `app/` is the program around it: command-line parsing with clap, HTTP with
  ureq, unpacking layers with flate2 and tar, the registry's and netavark's
  JSON messages with serde, and the processes and files the library's plans
  ask for.
- `tests/` exercises the library on concrete values.
