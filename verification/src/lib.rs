//! The logic of a few GStreamer elements, verified: the payload-type map of
//! an RTP session (decimal keys, caps per payload type, reading a map in
//! from a structure and out into one), the decisions of a GTK 4 paintable
//! video sink, and what these elements declare about themselves.
use vstd::prelude::*;

pub mod element;
pub mod pt;
pub mod pt_map;
pub mod session;
pub mod sink;

verus! {
}
