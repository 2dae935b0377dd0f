# audio_tinkertoy

A waveform editor and synthesiser. `src/` is the verified library:

- `waveform`: sampled waveforms and proportional resampling to a new number of points;
- `editor`: the editor state (current waveform, reshaping source, selection, drag) and its
  per-frame pointer handling;
- `playback`: the play/stop transport.

Sample values are a type parameter; `app/` instantiates it with `f32` and holds the
floating-point work (sine generation, Hermite interpolation, the audio source), the egui
user interface and the rodio audio output.
