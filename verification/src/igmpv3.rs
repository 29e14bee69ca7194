//! The IGMPv3 message shapes (membership report and membership query) and
//! their field-table renderers.

use ratatui::Frame;
use ratatui::layout::Rect;
use vstd::prelude::*;
use vstd::string::*;

use crate::draw::{draw_pair, draw_table, draw_title, frame_cells, rendered, split_title_data};
use crate::screen::title_padding;
use crate::text::{checksum_str, checksum_string, dec_str, dec_string, ipv4_str, ipv4_string,
    row_views};

verus! {

/// A decoded IGMPv3 message: either of the two version-3 shapes.
#[derive(Debug, Copy, Clone)]
pub enum IGMPv3Packet {
    Report(IGMPv3MembershipReportPacket),
    Query(IGMPv3MembershipQueryPacket),
}

/// A decoded IGMPv3 membership report: checksum and group-record count.
#[derive(Debug, Copy, Clone)]
pub struct IGMPv3MembershipReportPacket {
    pub checksum: u16,
    pub nb_group_records: u16,
}

/// A decoded IGMPv3 membership query: response-code byte, checksum, the
/// multicast group address as a 32-bit value in host byte order, the
/// suppress flag `S`, the robustness value `QRV`, the query-interval code
/// `QQIC`, and the source count.
#[derive(Debug, Copy, Clone)]
pub struct IGMPv3MembershipQueryPacket {
    pub max_response_code: u8,
    pub checksum: u16,
    pub group_address: u32,
    pub s: u8,
    pub qrv: u8,
    pub qqic: u8,
    pub nb_source_addr: u16,
}

impl IGMPv3Packet {
    /// The name/value field rows of the concrete version-3 shape, in
    /// display order.
    pub open spec fn rows_spec(self) -> Seq<(Seq<char>, Seq<char>)> {
        match self {
            IGMPv3Packet::Report(p) => p.rows_spec(),
            IGMPv3Packet::Query(p) => p.rows_spec(),
        }
    }

    /// The field table of the concrete version-3 shape, as name/value text
    /// rows in display order.
    pub fn rows(self) -> (r: Vec<(String, String)>)
        ensures
            row_views(r@) == self.rows_spec(),
    {
        match self {
            IGMPv3Packet::Report(p) => p.rows(),
            IGMPv3Packet::Query(p) => p.rows(),
        }
    }

    /// The title label of both version-3 shapes.
    pub fn title(self) -> (r: &'static str)
        ensures
            r@ == "IGMPv3"@,
    {
        "IGMPv3"
    }

    /// Draws this message into `block`, forwarding the region and frame
    /// unchanged to the renderer of the concrete version-3 shape.
    pub fn render(self, block: Rect, frame: &mut Frame)
        ensures
            rendered(*old(frame), *final(frame), "IGMPv3"@, self.rows_spec(), block),
    {
        match self {
            IGMPv3Packet::Report(packet) => {
                packet.render(block, frame);
            },
            IGMPv3Packet::Query(packet) => {
                packet.render(block, frame);
            },
        }
    }
}

impl IGMPv3MembershipQueryPacket {
    /// The eight field rows of the IGMPv3 query table, in display order:
    /// Type, Max Response time, Checksum, Group Address, S, QRV, QQIC,
    /// Number of Sources.
    pub open spec fn rows_spec(self) -> Seq<(Seq<char>, Seq<char>)> {
        seq![
            ("Type"@, "IGMPv3 Membership Query"@),
            ("Max Response time"@, dec_str(self.max_response_code as nat)),
            ("Checksum"@, checksum_str(self.checksum as nat)),
            ("Group Address"@, ipv4_str(self.group_address as nat)),
            ("S"@, dec_str(self.s as nat)),
            ("QRV"@, dec_str(self.qrv as nat)),
            ("QQIC"@, dec_str(self.qqic as nat)),
            ("Number of Sources"@, dec_str(self.nb_source_addr as nat)),
        ]
    }

    /// The field table of this message, as name/value text rows in display
    /// order.
    pub fn rows(self) -> (r: Vec<(String, String)>)
        ensures
            row_views(r@) == self.rows_spec(),
    {
        let mut r: Vec<(String, String)> = Vec::new();
        r.push((String::from_str("Type"), String::from_str("IGMPv3 Membership Query")));
        r.push((String::from_str("Max Response time"), dec_string(self.max_response_code as u16)));
        r.push((String::from_str("Checksum"), checksum_string(self.checksum)));
        r.push((String::from_str("Group Address"), ipv4_string(self.group_address)));
        r.push((String::from_str("S"), dec_string(self.s as u16)));
        r.push((String::from_str("QRV"), dec_string(self.qrv as u16)));
        r.push((String::from_str("QQIC"), dec_string(self.qqic as u16)));
        r.push((String::from_str("Number of Sources"), dec_string(self.nb_source_addr)));
        proof {
            assert(row_views(r@) =~= self.rows_spec());
        }
        r
    }

    /// Draws this message into `block`: a bold, vertically centered
    /// "IGMPv3" title in a fixed-width slot, and the eight-row field table
    /// beside it.
    pub fn render(self, block: Rect, frame: &mut Frame)
        ensures
            rendered(*old(frame), *final(frame), "IGMPv3"@, self.rows_spec(), block),
    {
        let regions = split_title_data(block);
        let pad = title_padding(regions.0.height);
        draw_title(frame, regions.0, "IGMPv3", pad);
        let rows = self.rows();
        draw_table(frame, regions.1, &rows);
        proof {
            assert(frame_cells(*frame) == draw_pair(
                frame_cells(*old(frame)),
                regions.0,
                regions.1,
                "IGMPv3"@,
                self.rows_spec(),
            ));
        }
    }
}

impl IGMPv3MembershipReportPacket {
    /// The three field rows of the IGMPv3 report table, in display order:
    /// Type, Checksum, Number Group Records.
    pub open spec fn rows_spec(self) -> Seq<(Seq<char>, Seq<char>)> {
        seq![
            ("Type"@, "IGMPv3 Membership Report"@),
            ("Checksum"@, checksum_str(self.checksum as nat)),
            ("Number Group Records"@, dec_str(self.nb_group_records as nat)),
        ]
    }

    /// The field table of this message, as name/value text rows in display
    /// order.
    pub fn rows(self) -> (r: Vec<(String, String)>)
        ensures
            row_views(r@) == self.rows_spec(),
    {
        let mut r: Vec<(String, String)> = Vec::new();
        r.push((String::from_str("Type"), String::from_str("IGMPv3 Membership Report")));
        r.push((String::from_str("Checksum"), checksum_string(self.checksum)));
        r.push((String::from_str("Number Group Records"), dec_string(self.nb_group_records)));
        proof {
            assert(row_views(r@) =~= self.rows_spec());
        }
        r
    }

    /// Draws this message into `block`: a bold, vertically centered
    /// "IGMPv3" title in a fixed-width slot, and the three-row field table
    /// beside it.
    pub fn render(self, block: Rect, frame: &mut Frame)
        ensures
            rendered(*old(frame), *final(frame), "IGMPv3"@, self.rows_spec(), block),
    {
        let regions = split_title_data(block);
        let pad = title_padding(regions.0.height);
        draw_title(frame, regions.0, "IGMPv3", pad);
        let rows = self.rows();
        draw_table(frame, regions.1, &rows);
        proof {
            assert(frame_cells(*frame) == draw_pair(
                frame_cells(*old(frame)),
                regions.0,
                regions.1,
                "IGMPv3"@,
                self.rows_spec(),
            ));
        }
    }
}

} // verus!
