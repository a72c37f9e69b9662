# codex_ws

`codex-ws` runs the Codex CLI in Docker against saved single-folder or
multi-folder workspaces. This crate is written in Verus: the library in `src/`
is verified against its `requires`/`ensures` contracts, and `app/` holds the
command-line program around it.

## Layout

- `src/text.rs`: string and path helpers (trimming, path joining, final path
  component), each proved against a specification over `Seq<char>`.
- `src/runtime.rs`: validation of runtime setup (apt packages, setup commands,
  tool and language versions) and the environment variables it produces.
- `src/manifest.rs`: workspace manifests, validated from the raw values of a
  manifest file; folder checks from the host-side state of each folder.
- `src/docker.rs`: host paths of a workspace, the container name and the
  `docker run` argument list, with proofs about the mounts and networking.
- `src/workspace.rs`: saved workspaces: manifest paths, name resolution,
  `~` expansion, the manifest template and the sorted listing.
- `src/config.rs`: user configuration (`cc-switch-db`) and default locations.
- `src/provider.rs`: Codex providers from the provider database's rows.
- `src/app.rs`: run decisions: run configuration, provider selection, the
  effective image, the generated Codex configuration and the image check.
- `src/cli.rs`: the command-line surface as plain values.
- `src/outside.rs`: declarations of the outside error types the library carries.
- `app/`: argument parsing, file, database and Docker I/O.
- `tests/`: tests of the library.
