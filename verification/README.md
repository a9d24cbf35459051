# pulsebridge

The decision logic of PulseBridge, a music-reactive visual performance
engine, as a library verified with Verus.

PulseBridge listens to the audio a DJ plays, analyses it, and drives a
full-screen shader performance. Everything in it that decides rather than
measures lives in `src/` with a contract and a proof:

- audio routes and formats: PCM format negotiation and decoding
  (`format`, `wasapi`, `coreaudio`), the Rekordbox process tree
  (`process_tree`), source lists (`sources`), the automatic output route's
  sweep over the active outputs (`output_sweep`), the bounded PCM ring
  (`ring_buffer`), the capture status and the decisions of the capture loops
  (`capture`), and when a silent route gives up (`reconnect`);
- the musical state's timing (`music_state`), phrase tracking and routing
  (`phrase`), scene direction (`director`, `scene_director`), the spectacle
  gesture and flashes (`spectacle`, `flash`), adaptive render quality
  (`quality`);
- shader specialisation for a scene (`scan`, `scene_shader`) and the
  bounded cache of compiled scenes with one compilation in flight
  (`pipeline_cache`);
- the runtime lifecycle, the reset when performance stops, and the
  transactional startup (`display`,
  `startup`), renderer state and the exclusive GPU lease (`renderer`);
- durable diagnostics bookkeeping: the log's location, records and
  rotation, the session marker, and which stage an unclean exit stopped at
  (`diagnostics`); the connection test's decisions and probe order
  (`diagnostic_runner`); the staged connection report, including the report
  rebuilt for a run that ended unexpectedly (`probe_report`); and the audio
  probe as a state machine that the caller
  drives by performing its actions (`audio_probe`).

Laws that span several calls are public proof functions named `law_*`.

`app/` is the ordinary Rust around the library: floating-point analysis
(FFT features, rhythm, musical fit, palettes, envelopes), file I/O for logs
and markers, the loops that perform the connection test's and the automatic
output route's actions, the GPU lease's release on drop, and the
serialisable copies of the library's types.
`tests/` exercises the library on concrete values.
