# gnomeqs_core

The core of a GNOME Quick Share client, written in Verus: the decisions
of its Wi-Fi Direct and mDNS support and of its desktop front end are
functions with contracts, proved by Verus.

The desktop front end itself (the GTK and libadwaita windows and their
message loop), the transfer protocol with its TCP server, and the
translation of texts are not part of this crate; the library gives its
texts in English.

## Layout

- `src/` — the verified library.
  - `text`, `numbers`, `ids`: text as `Seq<char>` (trimming, lines, fields,
    searching), decimal numbers and IPv4 addresses, sets of ids and maps
    keyed by text.
  - `wifi_direct`, `gdbus`, `neighbors`, `discovery`: Wi-Fi Direct through
    NetworkManager — what `nmcli`, `gdbus` and `ip` print, read exactly; the
    capability probe; peers arriving and leaving.
  - `mdns`, `service`: the visibility setting, the announcer that decides
    when the service is registered, announced again or withdrawn, and the
    service record with the values it holds.
  - `manager`, `endpoint`: transfers, devices and what a failure leaves.
  - `frontend`, `devices`, `transfers`, `paths`: the decisions of the
    desktop front end — the command line, pages, notices, the devices and
    transfers shown, what a send or a retry sends, icons and paths.
- `tests/` — tests of the library on concrete values.
- `app/` — the parts that run tools, the mDNS daemon and timers, and hand
  what they get to the library, which decides what follows.

Run Verus on `src/lib.rs` to check the proofs.
