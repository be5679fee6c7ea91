//! Planning, supervision and live reconfiguration of video flows.

pub mod builder;
pub mod checker;
pub mod config;
pub mod control;
pub mod crop;
pub mod error;
pub mod flow;
pub mod monitor;
pub mod stage;
pub mod text;

pub use crate::builder::{Flow, FlowBuilder};
pub use crate::crop::MatrixCrop;
pub use crate::error::Error;
pub use crate::flow::{Acceleration, AspectRatio, Encoding, Feedback, Sink, Source, Transport};
