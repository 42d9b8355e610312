# kplock

Unlocks KeePassXC with a keyfile that is kept encrypted with age (scrypt,
passphrase). `kplock encrypt` encrypts a keyfile; `kplock unlock` decrypts it to
a temporary file, starts KeePassXC with it, and wipes the file (zeros, then
delete) when KeePassXC closes.

Layout:

- `src/` is the library, checked by Verus against its contracts:
  - `paths.rs`: paths handled by the Unix rules on every platform: joins,
    lexical normalisation of `.` and `..`, the test that a path lies within
    a directory, and the directories that `dirs` reports;
  - `config.rs`: the configuration, its defaults and generated TOML text
    (values escaped for TOML basic strings), where it is stored, `~`
    expansion, and the check that the keyfile paths stay in the home
    directory or `/tmp`;
  - `crypto.rs`: passphrase confirmation and wiping, age encryption and
    decryption;
  - `keyfile.rs`: the steps that write and wipe the temporary keyfile, with
    the laws on their order (a failed write is wiped too);
  - `cli.rs`, `launcher.rs`: the commands, the yes/no answer, the KeePassXC
    arguments and the answer to Ctrl+C (which wipes the temporary keyfile);
  - `commands.rs`: the `encrypt` and `unlock` commands as state machines; the
    temporary keyfile is wiped before `unlock` ends, whatever fails.
- `app/` is the program: argument parsing, terminal prompts, files, processes
  and signals, built on the library.
- `tests/` runs the library on concrete values.
