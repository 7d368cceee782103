# ime_caret

A Windows caret indicator: a small badge beside the text caret shows the
current input mode (가 for Korean, ひ/カ for Japanese, a/A for English with
Caps Lock), with optional sounds on a change and a tray icon with settings.

The decisions are a library verified with Verus; the Windows shell around
it reads the system and acts on what the library decides.

## Layout

- `src/` — the verified library.
  - `config` — settings, colours and the INI format (with round-trip laws).
  - `text`, `arith`, `order` — string, UTF-16, hex and saturating-arithmetic
    helpers.
  - `win` — Win32 value types and message-word helpers.
  - `editability`, `focus`, `uia`, `console`, `outlook` — whether the focused
    element takes text and where its caret is, decided from facts about the
    window tree, UI Automation, MSAA, consoles and Outlook handed in by the
    caller.
  - `ime`, `ime_cache`, `ime_scan` — IME snapshots, the shell input
    processes, the cache of recent IME states with its freshness rules, and
    the order in which candidate windows are asked for their IME state.
  - `badge` — the input-mode kind, the badge's look and pixels, and the
    state machine that decides when it is drawn, moved or hidden.
  - `layout` — where the badge, the tray hint, the tray menu and the
    settings window go.
  - `activity`, `events`, `settings`, `about` — polling back-off, raw
    keyboard and accessibility events, tray and menu commands, and texts.
- `tests/` — tests of the library on concrete values.
- `app/` — the Windows program: windows, hooks, timers, tray, drawing and
  file I/O. It reads the window tree, the Win32 caret and the IMM state;
  it does not read UI Automation, MSAA, console buffers or Outlook, so those
  caret sources and checks answer that they found nothing. `app/uia_geometry.rs` holds
  the floating-point geometry of UI Automation rectangles for such a reader.
