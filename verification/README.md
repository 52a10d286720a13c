# smt

The logic of a desktop player for the music service NetEase Cloud Music, written in Rust and
verified with Verus.

- `src/` is the library. Every function in it states what it returns or changes, and Verus proves
  it. Functions that need the network, the disk, the audio output or the screen are cut in two:
  they say what is to be done there, and take in what came of it.
- `tests/` runs the library, with the outside crates that it calls.
- `app/` is the program around the library: it sends the requests, plays the songs, keeps the
  files and shows the window.

## The library

| module | what it is about |
| --- | --- |
| `player` | the playlist, the order in which it is played, and what the audio output is told |
| `api` | requests to the service, downloads, and the files of songs and images |
| `json`, `model` | reading the answers of the service |
| `app_lib`, `cache`, `qr` | what the application knows while it runs, and the login code |
| `app`, `navigator`, `songlist`, `sidebar`, `playing`, `pages`, `frame`, `types` | the interface |
| `config`, `text`, `utility` | what all of them use |

What is proved rests on a few contracts about outside crates, which stand in `player/lists.rs`
(shuffling, by `rand`), `cache.rs` (caches, by `moka`) and `qr.rs` (login codes, by
`qrcode-generator` and `image`).
