//! A client core for a libSQL database reached over one persistent stream,
//! and the state of the interactive shell built on it.
//!
//! Many requests share the stream, and their replies come back in any order.
//! [`client`] matches each reply to the caller that awaits it: it hands out
//! request ids, files a delivery slot under each id in the [`table`], builds
//! the messages of [`request`], and resolves the slot of every envelope of
//! [`response`] that the reader hands in. [`laws`] states what holds of that
//! over whole runs.
//!
//! [`shell`] holds the tabs and modes of the shell and says what each key
//! does; [`editor`] and [`motion`] move the cursor and edit the query;
//! [`layout`] places the query on the screen; [`results`] shows what a query
//! returned; [`config`] finds the database and its token in the settings;
//! [`text`] builds numerals.
//!
//! Nothing here reads or writes: the stream, the terminal and the settings
//! file are the caller's.

pub mod client;
pub mod config;
pub mod editor;
pub mod laws;
pub mod layout;
pub mod motion;
pub mod request;
pub mod response;
pub mod results;
pub mod shell;
pub mod table;
pub mod text;
