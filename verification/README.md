# evo_device_audio

The logic of an audio device's plugins, proved with Verus: networking, multiroom audio,
the composition stage, local metadata and artwork, and the device's default topology.

- `src/` is the library. Every function states what it returns or changes, and Verus
  proves it.
- `app/` is the program around it: it runs programs, reads and writes files, talks to
  ALSA and to the framework, and turns JSON and TOML into the library's values and back.
- `tests/` runs the library.

## Modules

| Module | What it holds |
| --- | --- |
| `network` | intents, profiles, captive portals, scans, secrets, radios, link sources |
| `multiroom` | roles and groups, capture, playback by presentation time, traces |
| `composition` | which endpoints are connected, and the pumps between them |
| `library` | library roots, album names, the search for an album |
| `metadata` | from tags to answers, and the queries for them |
| `artwork` | covers in audio files, and their cache |
| `topology`, `ui_pack` | what the device starts with, and what its interface shows |
| `text`, `text_order`, `text_map`, `number`, `encoding`, `paths`, `config_value`, `error`, `request` | what the others are made of |

## How the library meets the world

Logic that has to wait for the world (a program's output, a file, a clock) is a function
of what the world has replied so far. Where it needs a reply that is not there yet, it
stops and names the action that would bring it. The program performs the action, appends
the reply and calls the function again. So each contract covers every way in which the
world can answer.

What the outside crates compute (base64, SHA-256, XChaCha20-Poly1305, JSON and TOML
values) is called through small trusted functions, whose comments say what is believed of
them.
