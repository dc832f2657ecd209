# soomfon

The verified core of a Linux desktop app for Soomfon stream decks (OEM
rebrands of the Mirabox / Ajazz stream controllers), written in Verus.

- `src/` — the library. Its functions are proved against their contracts,
  except the small wrappers marked `#[verifier::external_body]` that call
  `std`, `image`, `font8x8`, `evdev` and `mirajazz`: their contracts are
  assumed, as their doc comments say.
  - `kind` — the registry of supported models (USB ids, key layout, panel image format, HID queries);
  - `input` — decoding of raw input reports into key / encoder snapshots;
  - `config` — profiles, pages and buttons;
  - `keyboard` — hotkey names and their resolution to Linux key codes;
  - `action` — what a key press asks for (nothing, launching a program, tapping a combo);
  - `session` — what to paint on each key and which action a press runs;
  - `render` — solid and text key images, glyph by glyph;
  - `device`, `lib` — device enumeration and the status snapshot.
- `app/` — plain Rust around it: the JSON config store, the uinput virtual
  keyboard, launching programs, the reconnecting session loop, and the
  serializable copies of the model.
- `tests/` — tests of the library.
