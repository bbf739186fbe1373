//! The flow record as the projector reads it: a tree of optionals.
//!
//! A dumped connection-tracking entry may omit any field at any nesting
//! level, so every level is an explicit `Option` and projection short-
//! circuits to null through an absent intermediate, never through a
//! default-constructed stand-in.

use vstd::prelude::*;

use crate::ipv4::Ipv4Addr;

verus! {

/// An endpoint address of a tracked flow, either IP family.
#[derive(Clone, Copy, Debug, PartialEq, Eq)]
pub enum IpAddress {
    V4(Ipv4Addr),
    V6(u128),
}

/// Protocol data of one direction: the protocol number as a plain 8-bit
/// integer, and the two ports.
#[derive(Clone, Copy, Debug, PartialEq, Eq)]
pub struct ProtoTuple {
    pub number: Option<u8>,
    pub src_port: Option<u16>,
    pub dst_port: Option<u16>,
}

/// One direction of a tracked flow: endpoints and protocol data.
#[derive(Clone, Copy, Debug, PartialEq, Eq)]
pub struct IpTuple {
    pub src: Option<IpAddress>,
    pub dst: Option<IpAddress>,
    pub proto: Option<ProtoTuple>,
}

/// One tracked flow: an optional identifier and the two directional tuples.
#[derive(Clone, Copy, Debug, PartialEq, Eq)]
pub struct Flow {
    pub id: Option<u32>,
    pub origin: Option<IpTuple>,
    pub reply: Option<IpTuple>,
}

impl Default for Flow {
    /// The default flow record has every field absent.
    fn default() -> (r: Flow)
        ensures
            r == (Flow { id: None, origin: None, reply: None }),
    {
        Flow { id: None, origin: None, reply: None }
    }
}

} // verus!
