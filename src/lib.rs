//! Benchmark environments: detecting how a benchmark folder provisions its
//! dependencies, building the isolated command lines that install and run it,
//! and turning a finished run into a measurement.
pub mod paths;
pub mod text;
pub mod matching;
pub mod command;
pub mod environment;
pub mod supervisor;
pub mod benchmark;
pub mod configuration;
