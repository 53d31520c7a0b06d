# Wardrobe

Wardrobe is a client-side skin loader for GTA: San Andreas with SA-MP: it
gives matching streamed peds a cloned RenderWare clump from a configured
TXD/DFF pair while they keep their server model.

This crate is the verified core of the plugin, written in Verus:

- `config` — `wardrobe.json` rules and profiles, their validation, rule
  matching by priority, and the throttled configuration watcher.
- `source_cache`, `instance_cache`, `skin_loader` — the shared skin-source
  caches: loading, failure memory, retirement, and release only after a
  complete scan shows no clone is still live.
- `runtime` — the per-frame decisions for each streamed ped: reset
  detection, restore or install, failed-attempt fingerprints, pruning after
  a successful scan only, and cleanup of released sources.
- `samp`, `samp/layout` — recognising samp.dll builds and reading their
  player pools through copies that may fail.
- `gta`, `gta/renderware`, `gta/swap` — executable fingerprints, the checks on
  RenderWare and CPed structures a swap reads, and how a failed swap is
  undone.
- `samp_hooks`, `rak_samp`, `refresh` — hook fingerprints and coalesced
  refresh requests.
- `memory`, `text`, `named_map`, `player_map` — memory reads stated over
  the copies that the memory source may give of each requested range,
  text formatting, an insertion-ordered map
  keyed by profile name, and a player-ID map over `HashMap`.

`app/` holds the ASI plugin around it: file and log I/O, the serde form of
the configuration, Win32 memory copies, calls into GTA code, the
`CGame::Process` detour and the frame loop that carries out the library's
decisions.
