//! A safe model of the SANE scanner protocol: status codes, option
//! descriptors and values, device enumeration and the scan-session state
//! machine. Most operations take the scanner ABI's entry points as closures,
//! call them in the order the protocol demands, and decide from what they
//! report; the contracts state what is returned for every such report. Where
//! the caller makes the ABI calls itself (cancel at end-of-stream, release),
//! the operation returns which calls to make, in order.
pub mod device;
pub mod flags;
pub mod handle;
pub mod option;
pub mod status;
pub mod value;
