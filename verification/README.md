# radiod

An internet-radio daemon with MPRIS control, and `radiod-ctl`, its control
tool. The decisions the programs take are a Verus-verified library; the
programs around it do the I/O.

## Layout

- `src/` — the verified library (crate `radiod`):
  - `text` — character-sequence specifications (trim, split, search,
    decimal rendering, padding) and the executable helpers proved against them;
  - `station` — `orbox:<country>/<alias>` and `direct:<url>` station URIs:
    parsing, text form, error messages, and the law that a parsed URI written
    out parses back to itself;
  - `config` — configured stations, the start-up station, the reload gate of
    the configuration watcher;
  - `metadata` — now-playing metadata from the Online Radio Box scraper;
  - `orbox` — the stream-resolution endpoint and the checks on its answer;
  - `player` — playback states, the commands of the player thread and their
    mapping to mpv requests and GStreamer pipeline steps, and back;
  - `mpris` — the state behind the D-Bus interfaces (current station, next,
    previous, set, reload), track ids and the metadata dictionary;
  - `retry` — the daemon's recovery policy (bounded retries, growing delay);
  - `ctl` — the text `radiod-ctl` prints.
- `app/` — the daemon and the control tool: D-Bus (zbus), HTTP (reqwest),
  mpv and GStreamer, the configuration file and its watcher, async plumbing.
  Run under the name `radiod-ctl` the program is the control tool.
- `tests/` — tests of the library.
