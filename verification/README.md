# cornhacks24_game

The logic of *Lucky Liars*, an interrogation murder-mystery game, as a
verified library, with the Bevy client around it.

- `src/` — the library, verified with Verus:
  - `api` — request bodies and routes of the story server;
  - `speech` — the voice of each suspect, the speech request, audio file names;
  - `serial` — settings of the intercom port and decoding of its bytes;
  - `menu` — the screens and what each button does;
  - `interrogation` — the cast, and how the dialogue moves suspects between
    the door and the chair, with the laws of those moves.
- `tests/` — tests of the library on concrete values.
- `app/` — the game client (Bevy, egui, Yarn Spinner), the HTTP calls, the
  serial port and the speech service, which hand plain values to the library.
