# codex_quota

A small ball on the desktop that shows how much of a Codex quota is left, and a panel behind it
with the details. The library holds everything that is decided or computed; each function states
what it returns, and Verus proves it.

## Layout

- `src/` is the verified library.
  - `time`, `fixed`, `text`, `bytes`, `error`: plain values. Shares are counted in billionths,
    device-independent pixels, percents, dollars and credits in millionths, times in nanoseconds.
  - `config`, `quota`, `presentation`, `notify`: what the settings and the quota data mean, how
    they are worded, and when a change is worth a notification.
  - `layout`, `monitor`, `motion`, `snap`, `ring`: where the window stands, and how it moves.
  - `ball`, `panel`: what a frame consists of.
  - `window`, `overlay`, `interaction`, `tray`, `commands`: the window as a state machine. Each
    message of the system changes the state and yields a step to carry out.
  - `presence`: which processes make Codex present, and when that is published.
  - `system`, `clipboard`: registry values, icon files, and bitmaps in the system's own formats.
- `app/` is the Windows front end. It reads the clocks, makes the system calls and draws with
  Direct2D, following the steps that the library returns. The settings file, the log and the
  source of the quota data come from the embedding program, through `Host`.
- `tests/` runs the library on given values.

## Laws

Functions named `law_..` state what holds of the library as a whole: that a docked ball finds its
place again, that collapsing undoes expanding, that a sliding ball never overshoots, that a
notification is shown once, that presence and absence are published in turn.
