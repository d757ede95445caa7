//! Verified core of the SuperMuSR data pipeline: frame aggregation, run
//! bookkeeping and NeXus event-data accumulation, diagnostics and analysis.
pub mod time;
pub mod errors;
pub mod elements;
pub mod messages;
pub mod event_data;
pub mod sorting;
pub mod aggregator;
pub mod run_parameters;
pub mod periods;
pub mod numeric;
pub mod logs;
pub mod nexus_file;
pub mod run;
pub mod engine;
pub mod frame_debug;
pub mod keyed;
pub mod pairing;
pub mod analyser;
pub mod daq_trace;
