# wx_utils

Verified logic for desktop applications built on wxDragon.

- `src/` is the library, verified with Verus: menu labels (`menu`), spoken-form durations
  (`duration`), DPI scaling arithmetic (`dpi`), the decisions of the standard prompts
  (`dialogs`), the About box's builder (`about`), keymap conflict detection and the Set
  Shortcut dialog's decisions (`shortcuts`, `shortcuts::capture`), and the text helpers they
  share (`text`). Localized text comes from patois and key names from key-chord, each
  behind a small trusted wrapper.
- `app/` is the wxDragon side: the widgets, dialogs and FFI calls, which call the library for
  every decision.
- `tests/` runs the library on concrete values.
