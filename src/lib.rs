//! Turns an RSS export (a channel of items, each with a title and a link)
//! into either console lines or the bytes of a CSV file of HTML anchors.
//!
//! Reading the XML document and writing files or streams is left to the
//! caller; everything that decides what is written is verified here.
pub mod model;
pub mod anchor;
pub mod console_sink;
pub mod error;
pub mod csv_sink;
pub mod driver;
