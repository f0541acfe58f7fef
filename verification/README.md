# tracking_core

Verified decision logic of a hand-gesture mouse control runtime, written in
Verus.

`src/` holds everything the runtime decides that can be stated without
floating point, each function with a contract and the library's laws as
proof functions:

- `session`: runtime lifecycle (start, stop, pause, resume, tracker
  restarts) and the vision status announcements each command owes.
- `runtime`: frame pacing, coalescing of queued settings updates, event dump
  flushing.
- `gestures`: pose classification from finger measurements and the
  hold-to-control state machine (control on/off, clutch, clicks with
  cooldown, pointer tracking, scrolling by a two-finger vertical slide), hint
  labels.
- `engine`: tracking status with lost timeout and reset grace, per-frame
  gesture plan and event order, stopping, warm-up classification, tracker
  restart scope and command line.
- `config`: camera, timing, calibration profile, safety switch and text
  normalisation (including whitespace trimming).
- `input`: what reaches the operating system under the safety switches,
  pointer and wheel caps.
- `telemetry`: health report windows and percentile positions.
- `tracker`: mock tracker schedule, preview validation, bounded line reading
  (whole streams and buffered chunks alike).
- `sidecar`: the stand-alone sidecar's gesture machine, mock schedule, health
  counters and main-loop decisions.

`app/` is the program around it: landmark geometry, smoothing and pointer
speed mapping (floating point), the tracker process, files, logging, the
runtime thread and the sidecar's NDJSON output. `app desktop` runs the
desktop runtime from the console: events as JSON lines on stdout, commands
(`start`, `stop`, `pause`, `resume`, `calibrate`, `reset`, `settings`,
`quit`) on stdin.
