//! A CalDAV server library: iCalendar field extraction and generation,
//! WebDAV/CalDAV XML request parsing and multistatus response building,
//! calendar data models, and the request decisions of the CalDAV and MCP
//! front ends.
pub mod caldav;
pub mod config;
pub mod db;
pub mod error;
pub mod ical;
pub mod mcp;
pub mod ids;
pub mod text;
