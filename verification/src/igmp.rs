//! The IGMP message-type classifier and the top-level packet variant with
//! its render dispatch.

use ratatui::Frame;
use ratatui::layout::Rect;
use vstd::prelude::*;
use vstd::string::*;

use crate::draw::rendered;
use crate::igmpv1::IGMPv1Packet;
use crate::igmpv2::IGMPv2Packet;
use crate::igmpv3::IGMPv3Packet;
use crate::text::row_views;

verus! {

/// The recognized IGMP message kinds, each backed by a fixed one-byte wire
/// code (see [`wire_code`] and [`IgmpType::classify`]).
#[derive(Debug, Copy, Clone, PartialEq, Eq, Structural)]
pub enum IgmpType {
    MembershipQuery,
    IGMPv1MembershipReport,
    IGMPv2MembershipReport,
    IGMPv3MembershipReport,
    LeaveGroup,
}

/// The wire code that backs each message kind.
pub open spec fn wire_code(t: IgmpType) -> u8 {
    match t {
        IgmpType::MembershipQuery => 0x11,
        IgmpType::IGMPv1MembershipReport => 0x12,
        IgmpType::IGMPv2MembershipReport => 0x16,
        IgmpType::IGMPv3MembershipReport => 0x22,
        IgmpType::LeaveGroup => 0x17,
    }
}

/// The message kind a wire code stands for: `None` exactly on the codes
/// outside the recognized set.
pub open spec fn classify_spec(code: u8) -> Option<IgmpType> {
    if code == 0x11 {
        Some(IgmpType::MembershipQuery)
    } else if code == 0x12 {
        Some(IgmpType::IGMPv1MembershipReport)
    } else if code == 0x16 {
        Some(IgmpType::IGMPv2MembershipReport)
    } else if code == 0x22 {
        Some(IgmpType::IGMPv3MembershipReport)
    } else if code == 0x17 {
        Some(IgmpType::LeaveGroup)
    } else {
        None
    }
}

/// The display label of each message kind.
pub open spec fn label_str(t: IgmpType) -> Seq<char> {
    match t {
        IgmpType::MembershipQuery => "Membership Query"@,
        IgmpType::IGMPv1MembershipReport => "IGMPv1 Membership Report"@,
        IgmpType::IGMPv2MembershipReport => "IGMPv2 Membership Report"@,
        IgmpType::IGMPv3MembershipReport => "IGMPv3 Membership Report"@,
        IgmpType::LeaveGroup => "Leave Group"@,
    }
}

impl IgmpType {
    /// Maps a raw one-byte type code to its message kind; rejects every
    /// code outside the recognized set.
    pub fn classify(code: u8) -> (r: Result<IgmpType, &'static str>)
        ensures
            classify_spec(code) matches Some(t) ==> (r matches Ok(c) && c == t),
            classify_spec(code) is None ==> (r matches Err(m) && m@ == "Unknown igmp type"@),
    {
        match code {
            0x11 => Ok(IgmpType::MembershipQuery),
            0x12 => Ok(IgmpType::IGMPv1MembershipReport),
            0x16 => Ok(IgmpType::IGMPv2MembershipReport),
            0x22 => Ok(IgmpType::IGMPv3MembershipReport),
            0x17 => Ok(IgmpType::LeaveGroup),
            _ => Err("Unknown igmp type"),
        }
    }

    /// The human-readable display label of this message kind.
    pub fn label(&self) -> (r: String)
        ensures
            r@ == label_str(*self),
    {
        match self {
            IgmpType::MembershipQuery => String::from_str("Membership Query"),
            IgmpType::IGMPv1MembershipReport => String::from_str("IGMPv1 Membership Report"),
            IgmpType::IGMPv2MembershipReport => String::from_str("IGMPv2 Membership Report"),
            IgmpType::IGMPv3MembershipReport => String::from_str("IGMPv3 Membership Report"),
            IgmpType::LeaveGroup => String::from_str("Leave Group"),
        }
    }
}

/// Classification inverts the wire-code table: every message kind is
/// recovered, uniquely, from its own wire code. Together with
/// [`classify_spec`] being a function this makes the code set injective:
/// no two kinds share a code, and no code maps to two kinds.
pub proof fn lemma_classify_round_trip(t: IgmpType)
    ensures
        classify_spec(wire_code(t)) == Some(t),
{
}

/// A decoded IGMP message: a closed union over the three protocol
/// generations.
#[derive(Debug, Copy, Clone)]
pub enum IgmpPacket {
    V1(IGMPv1Packet),
    V2(IGMPv2Packet),
    V3(IGMPv3Packet),
}

impl IgmpPacket {
    /// The name/value field rows of the concrete variant, in display order.
    pub open spec fn rows_spec(self) -> Seq<(Seq<char>, Seq<char>)> {
        match self {
            IgmpPacket::V1(p) => p.rows_spec(),
            IgmpPacket::V2(p) => p.rows_spec(),
            IgmpPacket::V3(p) => p.rows_spec(),
        }
    }

    /// The protocol-generation title of the concrete variant.
    pub open spec fn title_str(self) -> Seq<char> {
        match self {
            IgmpPacket::V1(_) => "IGMPv1"@,
            IgmpPacket::V2(_) => "IGMPv2"@,
            IgmpPacket::V3(_) => "IGMPv3"@,
        }
    }

    /// The field table of the concrete variant, as name/value text rows in
    /// display order.
    pub fn rows(self) -> (r: Vec<(String, String)>)
        ensures
            row_views(r@) == self.rows_spec(),
    {
        match self {
            IgmpPacket::V1(p) => p.rows(),
            IgmpPacket::V2(p) => p.rows(),
            IgmpPacket::V3(p) => p.rows(),
        }
    }

    /// The title label naming the protocol generation of the concrete
    /// variant.
    pub fn title(self) -> (r: &'static str)
        ensures
            r@ == self.title_str(),
    {
        match self {
            IgmpPacket::V1(_) => "IGMPv1",
            IgmpPacket::V2(_) => "IGMPv2",
            IgmpPacket::V3(p) => p.title(),
        }
    }

    /// Draws this message into `block`: a title label naming the protocol
    /// generation and a two-column field table, forwarded unchanged to the
    /// concrete variant's renderer.
    pub fn render(self, block: Rect, frame: &mut Frame)
        ensures
            rendered(*old(frame), *final(frame), self.title_str(), self.rows_spec(), block),
    {
        match self {
            IgmpPacket::V1(packet) => {
                packet.render(block, frame);
            },
            IgmpPacket::V2(packet) => {
                packet.render(block, frame);
            },
            IgmpPacket::V3(packet) => {
                packet.render(block, frame);
            },
        }
    }
}

/// Whether the packet is the IGMPv1 shape.
pub open spec fn is_v1(p: IgmpPacket) -> bool {
    p matches IgmpPacket::V1(_)
}

/// Whether the packet is the IGMPv2 shape.
pub open spec fn is_v2(p: IgmpPacket) -> bool {
    p matches IgmpPacket::V2(_)
}

/// Whether the packet is the IGMPv3 membership-report shape.
pub open spec fn is_v3_report(p: IgmpPacket) -> bool {
    p matches IgmpPacket::V3(IGMPv3Packet::Report(_))
}

/// Whether the packet is the IGMPv3 membership-query shape.
pub open spec fn is_v3_query(p: IgmpPacket) -> bool {
    p matches IgmpPacket::V3(IGMPv3Packet::Query(_))
}

/// Dispatch is exhaustive and unambiguous: every constructible packet
/// value falls under exactly one of the four terminal shapes, so exactly
/// one terminal render routine handles it.
pub proof fn lemma_dispatch_exhaustive(p: IgmpPacket)
    ensures
        is_v1(p) || is_v2(p) || is_v3_report(p) || is_v3_query(p),
        !(is_v1(p) && is_v2(p)),
        !(is_v1(p) && is_v3_report(p)),
        !(is_v1(p) && is_v3_query(p)),
        !(is_v2(p) && is_v3_report(p)),
        !(is_v2(p) && is_v3_query(p)),
        !(is_v3_report(p) && is_v3_query(p)),
{
}

/// Row counts are fixed per shape: the IGMPv1 table has 3 rows, the
/// IGMPv2 table 4, the IGMPv3 query table 8 and the IGMPv3 report table 3,
/// whatever the field values.
pub proof fn lemma_row_counts(p: IgmpPacket)
    ensures
        is_v1(p) ==> p.rows_spec().len() == 3,
        is_v2(p) ==> p.rows_spec().len() == 4,
        is_v3_query(p) ==> p.rows_spec().len() == 8,
        is_v3_report(p) ==> p.rows_spec().len() == 3,
{
}

} // verus!
