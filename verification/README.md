# minitel_app

A demonstration application for the Minitel terminal, split in two:

- `src/` — the verified library (Verus). Tab navigation (`tabs`), the
  calendar and its month-by-month navigation over `time`'s dates
  (`calendar`), the Wi-Fi connection form and the credentials it hands to
  the radio (`wifi`), the application state machine driven by keystrokes and
  by the event loop (`app`), keystroke decoding (`keyboard`), the text shown
  on each screen (`screens`), and the serial port settings and transfer
  bookkeeping of the ESP32 board (`uart`). Character and string helpers are
  in `text`.
- `app/` — the program for the ESP32 board: start-up, the asynchronous event
  loop, drawing with ratatui, the videotex output, the UART driver and the
  Wi-Fi radio.

The tests under `tests/` exercise the library with concrete values.
