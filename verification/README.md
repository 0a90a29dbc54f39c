# xtask_vm

Local VM orchestration for the desktop end-to-end suite: which guest image to
boot and how, the commands that reach into a guest, the scripts it runs, and
the records kept about each guest, with every decision stated as a contract
and proved with Verus.

## Layout

- `src/` is the library, all of it verified.
  - `provider/` knows the guests: targets, images and providers (`target`),
    desktop sessions (`desktop`), the QEMU and Hyper-V command lines and scripts
    (`qemu`, `hyperv`), the QMP protocol's text (`qmp`), the UEFI firmware
    search (`firmware`) and the console geometry (`console`).
  - `guest/` is what happens inside a guest: SSH and SCP invocations (`ssh`),
    jobs and their logs (`job`), building and staging the binaries
    (`artifacts`, `cargo_json`), handing the desktop over (`handover`) and the
    pinned toolchain (`toolchain`).
  - `host/` reads the host's facts out of what its probes printed.
  - `commands/vm` holds the decisions and the texts of the `vm` command, and
    `commands/setup` those of `setup`.
  - `state` is the record kept for a running guest; `runner` describes a
    process to run and what came back from one; `text`, `split` and `fmt` are
    the string routines the rest is proved against.
- `app/` is the program around the library: the command line, running
  processes, reading and writing files, and the JSON and TOML readers. It
  hands the library plain values and acts on what comes back.
- `tests/` runs the library on concrete values.

Whatever depends on the machine (whether a file is there, which port is
free, what a process printed) reaches the library as an argument, often a
closure, and each contract states what holds whatever the answer was.
