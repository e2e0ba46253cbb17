//! Bulk maintenance of video favorite folders on a media platform.
//!
//! The platform offers a user's favorite folders through a paged web
//! interface. This library holds everything that has to be decided when
//! working with it in bulk, and nothing that has to be sent or stored:
//!
//! - [`folder`] tells the built-in default folder from the folders of the user;
//! - [`paging`] turns a paged listing into one ordered listing, with
//!   [`recency`] defining the order;
//! - [`capacity`] plans how many videos fit into a folder;
//! - [`transfer`] chooses the videos of a move and reports its outcome;
//! - [`reorder`] checks a wanted order of the folders before it is sent;
//! - [`cleanup`] purges many folders and sums up what happened;
//! - [`request`] and [`response`] describe what is sent and what comes back;
//! - [`error`] and [`config`] name the failures and the session.
//!
//! Operations that need several answers from the platform are written as
//! steps: each step takes one answer and says what to ask for next, so the
//! caller owns the connection and the library owns the decisions.

pub mod capacity;
pub mod cleanup;
pub mod config;
pub mod error;
pub mod folder;
pub mod paging;
pub mod recency;
pub mod reorder;
pub mod request;
pub mod resource;
pub mod response;
pub mod text;
pub mod transfer;
