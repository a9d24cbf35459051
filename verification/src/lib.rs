//! Verified decision logic for a music-reactive visual performance engine:
//! audio format negotiation, capture routing and status, process discovery,
//! musical timing, phrase tracking, scene direction, shader specialisation,
//! render quality, runtime lifecycles and diagnostics bookkeeping.
pub mod text;
pub mod format;
pub mod ring_buffer;
pub mod process_tree;
pub mod sources;
pub mod reconnect;
pub mod capture;
pub mod wasapi;
pub mod output_sweep;
pub mod coreaudio;
pub mod music_state;
pub mod phrase;
pub mod visual_settings;
pub mod director;
pub mod scene_director;
pub mod spectacle;
pub mod flash;
pub mod quality;
pub mod scan;
pub mod scene_shader;
pub mod pipeline_cache;
pub mod renderer;
pub mod display;
pub mod startup;
pub mod diagnostics;
pub mod diagnostic_runner;
pub mod probe_report;
pub mod audio_probe;
