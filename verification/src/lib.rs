//! A broadcast channel with wake-up coordination: every item that the
//! publisher gets accepted reaches every subscriber that is attached at that
//! moment, once and in publish order, and a subscriber that found nothing to
//! read is notified by the next accepted publish.
//!
//! - [`topic`] is the bounded broadcast buffer as a sequential data structure,
//!   with its mathematical model; what the channel does to its items is
//!   stated and proved there.
//! - [`bare`] shares one topic between a publishing end and any number of
//!   subscribing ends.
//! - [`alarm`] is the registry of wake handles: the list that a publish
//!   notifies, and the queue on which new handles reach it.
//! - [`async_`] puts the two together for consumers that run as tasks.
//! - [`laws`] states what holds of every run: each item once and in order, no
//!   item and no registration missed, independent cursors, a final end.
//!
//! The channel's ends may sit on different threads. What a call on an end
//! finds in the shared topic or on the registration queue is therefore not a
//! function of that end's own history; the contracts of the ends say what
//! holds whatever they find, and the functions that decide (the operations of
//! [`topic::Topic`], [`async_::react`], [`async_::Publisher::conclude`],
//! [`alarm::Submission::verdict`]) are stated exactly.
pub mod alarm;
pub mod async_;
pub mod bare;
pub mod laws;
mod runtime;
mod sync;
pub mod topic;
