# inputshare

Shares a keyboard and mouse with a second machine: a client captures the
local input and sends it over the network to a server, a Raspberry Pi that
acts as a USB keyboard, mouse and consumer-control device for the second
machine.

The library under `src/` is verified with Verus:

- `virtual_key`, `events`, `keyset`, `key_names`: Windows virtual keys, hook
  events, a bit set of keys, and the names of keys.
- `winput`, `send`: reading the system's hook messages, and the records that
  simulate input locally.
- `hook`: the client's capture logic (hotkey, blacklist, key repeats) and the
  key picker.
- `common`, `hid`: HID key, button and consumer codes and their flag sets, and
  the table from Windows scan codes to HID usages.
- `wire`, `protocol`, `sender`, `receiver`, `exchange`: the datagram protocol
  between client and server, with its delivery law.
- `reports`: the server's emulated devices and the HID reports they write.
- `tcp_client`, `gui_client`, `misc`, `framing`: the direct TCP client, the
  settings window's client, and smaller pieces (packets, handshakes, framing).

`app/` is the server program around the library: QUIC, mDNS, the USB gadget
configuration and the device files. `tests/` runs the library on concrete
values.
