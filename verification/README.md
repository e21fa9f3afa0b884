# lan_play

The core of a gateway that lets consoles on a local network play "LAN"
games over the Internet: it answers for a private address block on a
captured Ethernet interface, relays UDP flows through a direct connection
or a SOCKS5 proxy, and exchanges frames with a relay server.

- `src/` is the library, verified with Verus: the relay protocol
  (`protocol`, `client`), frame classification and address blocks
  (`packet`, `wire`), UDP datagram framing (`raw_udp`), the UDP session
  table over the `lru` cache (`sessions`, `lru_cache`), proxy settings
  (`proxy`), DNS queries and answers (`dns`), the decisions of the network
  reactor (`reactor`, `peekable`), interface selection (`iface`) and the
  connectivity check (`check`).  Calls into outside crates go through small
  trusted wrappers whose contracts are stated next to them.
- `app/` is the command line program: options, sockets, timers, packet
  capture and the smoltcp network stack around the library.
- `tests/` exercises the library on concrete values.
