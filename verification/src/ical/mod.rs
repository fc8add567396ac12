//! iCalendar (RFC 5545) field extraction and VEVENT generation.
pub mod builder;
pub mod newlines;
pub mod parser;
pub mod roundtrip;
