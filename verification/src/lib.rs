//! The integer core of a live, single-channel audio effects processor: the
//! bounded channel between the capture and the render stage, the console
//! commands of the control path, and the layout of the output frames.

pub mod algorithm;
pub mod channel;
pub mod control;
pub mod fifo;
pub mod render;
pub mod words;

pub use algorithm::DistortionType;
pub use channel::SampleChannel;
pub use control::{parse_command, Amount, Command, EffectSelector, Parameter};
pub use render::{output_feed, Feed};
