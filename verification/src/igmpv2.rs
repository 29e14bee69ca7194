//! The IGMPv2 message shape and its field-table renderer.

use ratatui::Frame;
use ratatui::layout::Rect;
use vstd::prelude::*;
use vstd::string::*;

use crate::draw::{draw_pair, draw_table, draw_title, frame_cells, rendered, split_title_data};
use crate::igmp::{IgmpType, label_str};
use crate::screen::title_padding;
use crate::text::{checksum_str, checksum_string, dec_str, dec_string, ipv4_str, ipv4_string,
    row_views};

verus! {

/// A decoded IGMPv2 message: type tag, response-time byte, checksum, and
/// the multicast group address as a 32-bit value in host byte order.
#[derive(Debug, Copy, Clone)]
pub struct IGMPv2Packet {
    pub igmp_type: IgmpType,
    pub max_response_time: u8,
    pub checksum: u16,
    pub group_address: u32,
}

impl IGMPv2Packet {
    /// The four field rows of the IGMPv2 table, in display order: Type,
    /// Max Response time, Checksum, Group Address.
    pub open spec fn rows_spec(self) -> Seq<(Seq<char>, Seq<char>)> {
        seq![
            ("Type"@, label_str(self.igmp_type)),
            ("Max Response time"@, dec_str(self.max_response_time as nat)),
            ("Checksum"@, checksum_str(self.checksum as nat)),
            ("Group Address"@, ipv4_str(self.group_address as nat)),
        ]
    }

    /// The field table of this message, as name/value text rows in display
    /// order.
    pub fn rows(self) -> (r: Vec<(String, String)>)
        ensures
            row_views(r@) == self.rows_spec(),
    {
        let mut r: Vec<(String, String)> = Vec::new();
        r.push((String::from_str("Type"), self.igmp_type.label()));
        r.push((String::from_str("Max Response time"), dec_string(self.max_response_time as u16)));
        r.push((String::from_str("Checksum"), checksum_string(self.checksum)));
        r.push((String::from_str("Group Address"), ipv4_string(self.group_address)));
        proof {
            assert(row_views(r@) =~= self.rows_spec());
        }
        r
    }

    /// Draws this message into `block`: a bold, vertically centered
    /// "IGMPv2" title in a fixed-width slot, and the four-row field table
    /// beside it.
    pub fn render(self, block: Rect, frame: &mut Frame)
        ensures
            rendered(*old(frame), *final(frame), "IGMPv2"@, self.rows_spec(), block),
    {
        let regions = split_title_data(block);
        let pad = title_padding(regions.0.height);
        draw_title(frame, regions.0, "IGMPv2", pad);
        let rows = self.rows();
        draw_table(frame, regions.1, &rows);
        proof {
            assert(frame_cells(*frame) == draw_pair(
                frame_cells(*old(frame)),
                regions.0,
                regions.1,
                "IGMPv2"@,
                self.rows_spec(),
            ));
        }
    }
}

} // verus!
