# MineTUI

A terminal Minecraft launcher. This crate is its verified core, written in
Verus: the functions in `src/` carry contracts that Verus proves. The
exceptions are the few small wrappers marked `#[verifier::external_body]`
that call outside code (the `zip`, `md5`, `sha1`, `hex`, `uuid` and
`directories` crates, and a few `char` and `String` methods of std); their
contracts are trusted, not proved, and their doc comments say what each
one claims.

## Layout

- `src/` — the library (`minetui`):
  - `app.rs`, `control.rs`: the launcher's state and what each key and each
    reply of background work does to it, with the work to start next;
    `laws.rs` holds the properties proved across these steps (tab and focus
    round trips, selections that stay in range, the account-type cycle).
  - `versions.rs`, `installer.rs`, `fabric.rs`, `modpack.rs`, `modrinth.rs`,
    `archive.rs`: version manifests, library and asset downloads (with size
    and SHA-1 checks), the Fabric overlay, Modrinth modpacks and their
    `.mrpack` archives.
  - `launcher.rs`: the class path and the Java command line.
  - `auth.rs`: offline UUIDs, the Microsoft device-code flow, Ely.by.
  - `paths.rs`, `config.rs`, `instance.rs`: where files live and what they hold.
  - `screen_text.rs`: every text the screens show.
  - `text.rs`, `digest.rs`: string helpers and hashing.
- `app/` — the program around it: terminal, events, network, disk and
  drawing. It performs the work the library names and hands back results.
- `tests/` — tests of the library.

Game files, instances and the configuration live in `mine-tui` inside the
user's data directory (`~/.local/share/mine-tui` on Linux,
`~/Library/Application Support/mine-tui` on macOS, `%APPDATA%\mine-tui` on
Windows), or in `mine-tui-data` where there is none.
