# krypt

The verified core of the Krypt OS daemons and tools, written in Verus.

- `src/` — the library, every function proved against its contract:
  - `config` — the daemon configuration and its validation;
  - `policy` — the inter-VM policy engine (explicit rules, then trust levels);
  - `daemon` — how the daemon answers each IPC request and what the kill
    switch runs; `ipc` — the IPC messages, frame headers and client replies;
  - `vm` — VM lifecycle state and the generated `xl` config; `xl` — the
    guest domains of an `xl list` listing; `usb` — auth stick recognition;
  - `kill_switch` — the panic level and its fail-secure escalation;
  - `luks` — key slots out of `cryptsetup luksDump`; `stick` — the auth
    stick rules (GPT guard, partition names, serial numbers, the prompt);
  - `wayland`, `frame`, `xen`, `input` — the GUI daemon's window titles,
    buffer geometry, trust-coloured frames, frame pacing and input
    isolation;
  - `text`, `names` — string and name-map support; `interop` — the
    declarations of outside types and the trusted wrappers;
  - `laws` — properties that span several functions, proved.
- `app/` — the programs (`krypt-daemon`, `krypt-stick`, `krypt-panic`,
  `krypt-gui`): I/O, async runtime, serde, clap, udev and Wayland around the
  library.
- `tests/` — tests of the library on concrete values.
