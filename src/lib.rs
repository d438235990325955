//! Reading and parsing of the MakAir telemetry binary protocol, and building of frames of the
//! MakAir control binary protocol.

/// Utilities related to alarms
pub mod alarm;
/// Structures to represent control messages
pub mod control;
/// CRC-32 checksum of frame bodies
pub mod framing;
/// ISO 639-1 language codes used in the control protocol
pub mod locale;
/// Structures to represent telemetry messages
pub mod structures;
/// Text fields: UTF-8 and device IDs
pub mod text;
/// Byte-level building blocks of the wire format
pub mod wire;
/// Parsers of telemetry frames and message bodies
pub mod parsers;
/// Binary representation of telemetry messages
pub mod serializers;
/// Reading a stream of bytes: buffer handling between frames, replay pacing
pub mod stream;
/// Messages read back as they were written
pub mod round_trip;
/// Frames fed a part at a time
pub mod incremental;
