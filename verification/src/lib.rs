//! Core engine for driving rotary actuators over three wire protocols: a UDP
//! binary/JSON motor-control protocol, an EtherCAT DS402 PDO exchange, and a
//! serial line carrying protobuf-encoded frames.
//!
//! The crate holds the decision logic of the per-protocol event loops: session
//! tables, command/telemetry lifecycle, the DS402 bring-up state machine, the
//! wire codecs, the waveform-to-target generator, and the bookkeeping of the
//! streaming filters.  Scalar samples cross the process boundary as opaque
//! 64-bit patterns; all time is carried in nanoseconds.  The I/O itself (ring
//! submission, sockets, serial descriptors) lives outside this crate.

pub mod motor_ctx;
pub mod controller;
pub mod motor_input;
pub mod motor_backend;
pub mod wire;
pub mod ds402;
pub mod fourier;
pub mod control_cache;
pub mod filter;
pub mod protobuf;
