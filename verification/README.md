# nearsend

The logic of NearSend, a LocalSend-compatible file sharing client, as a
verified library: every function in `src/` carries a contract that Verus
proves.

## Layout

- `src/` — the library. Each module models one part of the client:
  - `send`, `send_flow`: the send session, the protocol negotiation
    (routes, PIN prompts), uploads and their outcome.
  - `receive`, `incoming`: decisions on incoming requests (quick save,
    favourites, messages), the receive dialog and the incoming page.
  - `nearby`, `peer`, `favorites`, `net`, `server`: discovered devices,
    device identities, favourites, addresses and the local server state.
  - `share`, `qr`: share links and their QR codes.
  - `settings`, `modes`, `nav`, `layout`, `safe_area`: settings validation, send and
    quick-save modes, navigation, responsive layout and system-area margins.
  - `history`, `progress`, `selection`, `licenses`, `changelog`: the
    pages' content.
  - `text`, `fmt`, `clock`, `ids`: text, number and date helpers.
- `tests/` — tests on concrete values, run with the outside crates linked.
- `app/` — what stays outside the verified library: platform access,
  file reading, the send loop's network side and pixel arithmetic.

The outside crates `chrono`, `uuid`, `urlencoding` and `qrcode` are called
from `src/` through a few small trusted wrappers, each documented with what
its contract claims.
