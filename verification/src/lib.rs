//! A length-prefixed framing protocol for UTF-8 text messages over a
//! byte-oriented stream, together with the per-connection state machine of an
//! echo server built on it.
//!
//! A frame on the wire is a 4-byte little-endian unsigned length `L` followed
//! by exactly `L` bytes of payload; inbound payloads must be valid UTF-8 and
//! no longer than [`codec::MAX_PAYLOAD_LEN`]. The modules are layered:
//! [`codec`] is the wire format, [`utf8`] the payload validity rule,
//! [`reader`] and [`writer`] carry exact-length transfers over streams that
//! hand over fewer bytes than asked, and [`handler`] is the connection state
//! machine that decides, for every stream event, the next protocol action.
//! All I/O stays with the caller: the library computes, the caller moves
//! bytes.

pub mod codec;
pub mod utf8;
pub mod reader;
pub mod writer;
pub mod handler;
