//! Core logic of a QML desktop shell, stated and proved: a double-buffered
//! audio collector that hands the most recently completed chunk of PCM
//! samples to a polling consumer ([`collector`]), the launcher's
//! application list with its usage ranking ([`apps`]), a small expression
//! calculator surface ([`calculator`]), shared-service lifecycle counting
//! ([`service`], [`service_ref`]), and the URL-to-path rule of the shell
//! utilities ([`cutils`]).
//!
//! Everything the shell does beyond deciding — threads, the audio
//! backend, files, databases, image decoding — lives with the caller,
//! which feeds plain values in and carries the returned actions out.

use vstd::prelude::*;

pub mod apps;
pub mod calculator;
pub mod collector;
pub mod cutils;
pub mod service;
pub mod service_ref;

verus! {

} // verus!
