# supermusr-pipeline

The decision logic of a muon-spectroscopy data pipeline, verified with Verus.

## Library (`src/`)

- `time`, `messages`, `errors`: timestamps, the messages the pipeline consumes,
  and the errors it reports.
- `aggregator`: gathers the digitiser messages of each frame until every
  expected digitiser has been heard from or the frame expires (on tokio's
  monotonic clock).
- `run_parameters`, `run`, `engine`: runs are started and stopped by commands;
  frames, run logs, sample-environment data and alarms go to the run whose
  time window holds their timestamp; completed runs are let go.
- `event_data`, `periods`, `numeric`, `logs`, `nexus_file`, `elements`: the
  content of a run's NeXus file (event data, period counts, typed log values).
- `frame_debug`: collects message metadata by frame and classifies frames.
- `pairing`, `analyser`, `keyed`: groups events by channel and pairs detected
  with simulated event lists, repetition by repetition.
- `daq_trace`, `sorting`: the trace monitor's tables and row selection.

Each public function states its behaviour in `requires`/`ensures`; laws that
relate several calls are public proof functions named `law_*`.

## Around it (`app/`)

Kafka consumers, terminal drawing, the floating-point statistics of the trace
monitor and of the events analyser, report files, and HDF5 output.

## Tests (`tests/`)

Scenarios for the frame cache, the run engine, the NeXus content, and the
diagnostics and analysis tools.
