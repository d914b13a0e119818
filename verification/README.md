# stream_sync_switcher_core

The decision logic of the StreamSync four-view switcher, verified with Verus:
the operator's command line and control commands, the control-pipe framing,
the operator wrapper's key handling and quit guard, the per-slot picture
identities and the incremental quad composition of the preview loops, the
scaling of the clean output to the OBS validation profile, the per-tick
decisions and running counts of the preview loops, and the diagnostic and
summary lines they write.

Layout:

- `src/`: the verified library, one module per concern (`args`, `control`,
  `framing`, `operator`, `identity`, `quad`, `pixels`, `preview_slots`,
  `preview_loops`, `handoff_observation`, `slot_diagnostics`,
  `loop_summaries`, with `text`, `numbers`, `modes`, `fps`, `obs_runtime`
  as helpers).
- `tests/`: tests of the library on concrete values.
- `app/`: the `stream-sync-switcher` command: argument dispatch, the Windows
  console in raw-key mode and both ends of the named control pipe.
