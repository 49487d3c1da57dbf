//! Device-side data model of a smart-home endpoint.
//!
//! An endpoint exposes clusters; a cluster is a set of attributes that a
//! remote party reads and of commands that it invokes, each addressed by a
//! number. This crate holds the mechanism that every cluster shares, and four
//! clusters built on it:
//!
//! * a version counter per cluster instance, which advances by one with every
//!   write that changes a value, and a change flag that coalesces such writes
//!   into one signal ([`data_model::objects::Dataver`],
//!   [`data_model::objects::AttrCell`]);
//! * a version filter that leaves out the data of a read whose requester
//!   already knows the current version
//!   ([`data_model::objects::prepare_read`]);
//! * the dispatch of attribute and command numbers, first to the global
//!   attributes that the cluster's metadata answers, then to the cells of the
//!   instance ([`data_model::objects::Handler`]).
//!
//! Nothing here encodes a value for the wire or talks to a transport. A read
//! hands plain values to an [`data_model::objects::AttrSink`], and what
//! serialises them takes them from there.
//!
//! No operation blocks, and none locks: an instance is written through
//! `&mut`, so that there is one writer at a time and no reader beside it.
//!
//! Every function carries a contract over the views of the types it touches,
//! and the general laws of the mechanism are proof functions next to the
//! types that they speak of.
pub mod data_model;
pub mod error;
