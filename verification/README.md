# secure-file

Cross-platform owner-only filesystem access, with its decisions verified by
Verus.

Files get `0600` and directories `0700` on Unix, and an owner-only DACL on
Windows, from the moment they are created. Existing resources are verified
to be private before they are handed out, symbolic links are rejected, and
exclusive creation avoids races.

## Layout

- `src/` is the verified library. It performs no input or output. Each
  operation (`write_private`, `write_private_atomic`, `read_private`,
  `SecureDir::open`, `SecureFileOptions::open`, `app_dir_in`,
  `SecureTempDir::new_in`, ...) is a *plan*: it names one `Request` at a
  time and decides its next step from the host's `Reply`. The contracts
  state each transition exactly (paths by names for what `Path::join`,
  `Path::parent` and `Path::components` give), and proof functions state
  the laws, e.g. that nothing is handed out as private unless the host
  confirmed it, that an atomic write renames its temporary file only after
  writing and syncing it and removes it on failure, how operating-system
  errors map to `Error`, how Unix mode bits and Windows DACL entries read as
  `SecurePermissions`, and that temporary names made from different numbers
  differ.
  - `error.rs`: `Error`, `IoError`, and the mapping to and from
    `std::io::Error`.
  - `permissions.rs`: `SecurePermissions` from Unix modes and Windows DACLs.
  - `platform.rs`: `OpenParams` and the Win32 access masks, dispositions and
    attribute checks; the Unix open flags and kind check; the path helpers.
  - `request.rs`: `Request`, `Reply`, `Step`.
  - `dir.rs`, `file.rs`, `atomic.rs`, `options.rs`, `temp.rs`, `appdir.rs`:
    the plans.
- `app/` is the host: it performs the requests with `std::fs` and the
  platform APIs (`libc` open flags on Unix, `windows-sys` on Windows) and offers
  the blocking API (`SecureFile`, `write_private`, `SecureTempFile`, ...).
- `tests/` runs the plans against scripted replies.
