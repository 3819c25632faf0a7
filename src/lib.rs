//! Picks the next default audio output (sink) of a sound server: the one
//! after the active sink in index order, among the sinks that have something
//! plugged in, wrapping around to the first of them.
pub mod select;
pub mod sink;

pub use select::{
    filter_sinks_without_unavailable_port, get_current_active_sink, get_sink_with_next_index,
    pick_next_sink,
};
pub use sink::{PulseAudioSink, SinkModel, SinkPort, SwitchError};
