//! Video encoders, as far as their settings go: what a workflow step asks of
//! an encoder is read from the step's parameters here, and whoever builds the
//! media pipeline applies it.

pub mod video_x264;
