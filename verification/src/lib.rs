//! Stored LoRaWAN uplink notifications, flattened into a table.
//!
//! A network server reports each uplink as a JSON document that names the
//! sensor payload of the message and the gateways that received it. This
//! library takes such documents as the store hands them out and turns them
//! into rows, one for each message and each gateway that says where it
//! stands:
//!
//! - [`json`] holds a document as a tree of plain values;
//! - [`model`] holds an uplink message as it is read out of a document;
//! - [`decode`] reads it out, and is lenient about fields that producers
//!   left out or renamed;
//! - [`expand`] makes the rows of one message;
//! - [`extract`] runs both over the records of a window;
//! - [`table`] lays a row out under the header of the table;
//! - [`window`] reads the bounds of a window and names the file it is
//!   written to;
//! - [`time`] holds points in time as integers and reads them from text.
//!
//! Floating-point numbers are carried as their bit patterns and never
//! computed with.

pub mod decode;
pub mod expand;
pub mod extract;
pub mod json;
pub mod model;
pub mod table;
pub mod time;
pub mod window;
