# eruption

Verified device logic of the Eruption keyboard driver stack.

- `src/` is the library, verified with Verus:
  - `wooting_two_he_arm`: the Wooting Two HE (ARM) driver state and the
    checks that refuse requests, the feature and status LED reports, key
    report decoding, the raw colors packets of a LED map, device binding;
  - `wooting_tables`: key index and topology tables;
  - `roccat_vulcan_pro`: keyboard layout choice of the GUI view;
  - `audio_proxy`: decisions of the audio proxy daemon's event loop, its
    outgoing packet queue, log level parsing;
  - `util`: CRC-16/AUG-CCITT through the `crc16` crate;
  - `hwdevices`, `text`: shared types and text helpers.
- `app/` performs the I/O around it: HID transfers (`hidapi`), GTK drawing
  of the keyboard, and the audio proxy's socket loop and command line.
- `tests/` exercises the library on concrete values.
