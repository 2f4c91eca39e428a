//! Chooses the formatter of a sink from its declaration and builds it.
//!
//! [`sink::SinkFormatterImpl`] is the formatter, [`sink::SinkFormatterImpl::new`] starts its build
//! and [`sink::SinkFormatterImpl::resume`] goes on with it; [`host`] says what a build asks of the
//! program around it. [`outcome`] describes a whole build at once, and [`laws`] holds what is true
//! of the library as a whole.

pub mod avro_encoder;
pub mod catalog;
pub mod encoder;
pub mod error;
pub mod formatter;
pub mod host;
pub mod json_encoder;
pub mod laws;
pub mod options;
pub mod outcome;
pub mod proto_encoder;
pub mod sink;
pub mod template_encoder;
pub mod text;
pub mod text_encoder;
