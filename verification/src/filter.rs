//! The compiled form of a predicate: one equality filter per flow direction.
//!
//! Each directional filter holds at most one constraint per field; a field
//! left `None` matches anything, so the default value is the all-match
//! filter. A compiled filter is only ever an over-approximation of the
//! predicate it came from: the query engine must still evaluate the full
//! predicate on every row it receives.

use vstd::prelude::*;

use crate::ipv4::Ipv4Addr;
use crate::model::{Flow, IpAddress, IpTuple};

verus! {

/// Equality constraints on one direction of a flow.
#[derive(Clone, Copy, Debug, PartialEq, Eq)]
pub struct DirFilter {
    pub ipv4_src: Option<Ipv4Addr>,
    pub ipv4_dst: Option<Ipv4Addr>,
    pub l4_proto: Option<u8>,
    pub l4_src_port: Option<u16>,
    pub l4_dst_port: Option<u16>,
}

/// A pair of directional filters: one for the origin tuple, one for the reply.
#[derive(Clone, Copy, Debug, PartialEq, Eq)]
pub struct Filter {
    pub orig: DirFilter,
    pub reply: DirFilter,
}

/// The directional filter with no constraint on any field.
pub open spec fn spec_dir_all_match() -> DirFilter {
    DirFilter {
        ipv4_src: None,
        ipv4_dst: None,
        l4_proto: None,
        l4_src_port: None,
        l4_dst_port: None,
    }
}

impl Filter {
    /// The filter that matches every flow in both directions.
    pub open spec fn spec_all_match() -> Filter {
        Filter { orig: spec_dir_all_match(), reply: spec_dir_all_match() }
    }

    /// Builds the all-match filter.
    pub fn all_match() -> (r: Filter)
        ensures
            r == Filter::spec_all_match(),
    {
        Filter {
            orig: DirFilter {
                ipv4_src: None,
                ipv4_dst: None,
                l4_proto: None,
                l4_src_port: None,
                l4_dst_port: None,
            },
            reply: DirFilter {
                ipv4_src: None,
                ipv4_dst: None,
                l4_proto: None,
                l4_src_port: None,
                l4_dst_port: None,
            },
        }
    }
}

/// Whether one directional filter accepts one direction of a flow: each
/// installed constraint must find its field present and equal to the
/// constrained value; a field left unconstrained accepts anything, absent
/// fields included.
pub open spec fn spec_dir_matches(d: DirFilter, t: Option<IpTuple>) -> bool {
    &&& (d.ipv4_src matches Some(a) ==> t matches Some(tu) && tu.src == Some(IpAddress::V4(a)))
    &&& (d.ipv4_dst matches Some(a) ==> t matches Some(tu) && tu.dst == Some(IpAddress::V4(a)))
    &&& (d.l4_proto matches Some(p) ==> t matches Some(tu) && tu.proto matches Some(pt)
        && pt.number == Some(p))
    &&& (d.l4_src_port matches Some(p) ==> t matches Some(tu) && tu.proto matches Some(pt)
        && pt.src_port == Some(p))
    &&& (d.l4_dst_port matches Some(p) ==> t matches Some(tu) && tu.proto matches Some(pt)
        && pt.dst_port == Some(p))
}

/// Whether a filter accepts a flow: both directional filters accept their
/// tuples.
pub open spec fn spec_filter_matches(f: Filter, flow: Flow) -> bool {
    spec_dir_matches(f.orig, flow.origin) && spec_dir_matches(f.reply, flow.reply)
}

/// The all-match filter accepts every flow.
pub proof fn lemma_all_match_matches(flow: Flow)
    ensures
        spec_filter_matches(Filter::spec_all_match(), flow),
{
}

impl Default for Filter {
    /// The default filter is the all-match filter.
    fn default() -> (r: Filter)
        ensures
            r == Filter::spec_all_match(),
    {
        Filter::all_match()
    }
}

} // verus!
