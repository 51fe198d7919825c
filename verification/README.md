# omnispeed

The core of OmniSpeed, a global playback-speed remote for Windows: one set of
hotkeys and one control page drive the rate of desktop players (mpv, VLC,
PotPlayer, MPC-HC/BE), Chromium-based desktop clients over DevTools, and web
video through a browser extension.

`src/` is the verified library (Verus). Rates are integers in thousandths of
normal speed (1000 is 1×). It holds the rule tables, the key-combination and
key-sequence parsers, the rate grids and ladders, the channel choice and the
action per channel, the protocol framing and answer parsing of mpv, VLC and
DevTools, the native-messaging bridge's reactions, and every state change the
hotkeys, the foreground watcher and the front end's commands make. The laws
of the library are public proof functions named `law_*`.

`app/` is the desktop program around it (Tauri, Win32, pipes, HTTP,
WebSocket, the configuration file): it performs the I/O the library decides
on and converts between the library's types and the JSON the front end, the
configuration file and the extension exchange.

`tests/` runs the library on concrete values.
