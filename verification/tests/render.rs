use igmp_view::igmp::{IgmpPacket, IgmpType};
use igmp_view::igmpv1::IGMPv1Packet;
use igmp_view::igmpv2::IGMPv2Packet;
use igmp_view::igmpv3::{
    IGMPv3MembershipQueryPacket, IGMPv3MembershipReportPacket, IGMPv3Packet,
};
use ratatui::Terminal;
use ratatui::backend::TestBackend;
use ratatui::layout::Rect;

fn render_lines(packet: IgmpPacket, area: Rect, width: u16, height: u16) -> Vec<String> {
    let backend = TestBackend::new(width, height);
    let mut terminal = Terminal::new(backend).expect("terminal");
    let completed = terminal.draw(|frame| packet.render(area, frame)).expect("draw");
    let buffer = completed.buffer;
    buffer
        .content
        .chunks(buffer.area.width as usize)
        .map(|cells| cells.iter().map(|c| c.symbol()).collect::<String>())
        .collect()
}

fn some_line_contains(lines: &[String], needle: &str) -> bool {
    lines.iter().any(|l| l.contains(needle))
}

#[test]
fn v2_scenario_width_40_height_10() {
    let p = IGMPv2Packet {
        igmp_type: IgmpType::IGMPv2MembershipReport,
        max_response_time: 20,
        checksum: 0x1234,
        group_address: 0xe0000001,
    };
    let area = Rect::new(0, 0, 40, 10);
    let lines = render_lines(IgmpPacket::V2(p), area, 40, 10);

    // Title slot: width 10 at a 2-unit margin; slot height 6 gives top
    // padding 2, so the title sits on screen row 4.
    let title_region: String = lines[4].chars().take(12).collect();
    assert!(title_region.contains("IGMPv2"), "title row was {:?}", lines[4]);

    // Field names appear in the data slot, one per row from the top margin.
    assert!(lines[2].contains("Type"));
    assert!(lines[3].contains("Max Response time"));
    assert!(lines[4].contains("Checksum"));
    assert!(lines[5].contains("Group Address"));
}

#[test]
fn v2_scenario_values_visible_when_wide_enough() {
    let p = IGMPv2Packet {
        igmp_type: IgmpType::IGMPv2MembershipReport,
        max_response_time: 20,
        checksum: 0x1234,
        group_address: 0xe0000001,
    };
    let area = Rect::new(0, 0, 80, 12);
    let lines = render_lines(IgmpPacket::V2(p), area, 80, 12);

    assert!(lines[2].contains("Type") && lines[2].contains("IGMPv2 Membership Report"));
    assert!(lines[3].contains("Max Response time") && lines[3].contains("20"));
    assert!(lines[4].contains("Checksum") && lines[4].contains("0x1234"));
    assert!(lines[5].contains("Group Address") && lines[5].contains("224.0.0.1"));

    // Slot height 8 gives top padding 3, so the title sits on screen row 5.
    let title_region: String = lines[5].chars().take(12).collect();
    assert!(title_region.contains("IGMPv2"));
}

#[test]
fn v3_query_renders_all_eight_fields() {
    let p = IGMPv3MembershipQueryPacket {
        max_response_code: 100,
        checksum: 0x0abc,
        group_address: 0xe00000fb,
        s: 1,
        qrv: 2,
        qqic: 125,
        nb_source_addr: 3,
    };
    let area = Rect::new(0, 0, 80, 14);
    let lines = render_lines(IgmpPacket::V3(IGMPv3Packet::Query(p)), area, 80, 14);

    assert!(some_line_contains(&lines, "IGMPv3"));
    assert!(lines[2].contains("Type") && lines[2].contains("IGMPv3 Membership Query"));
    assert!(lines[3].contains("Max Response time") && lines[3].contains("100"));
    assert!(lines[4].contains("Checksum") && lines[4].contains("0x0abc"));
    assert!(lines[5].contains("Group Address") && lines[5].contains("224.0.0.251"));
    assert!(lines[6].contains("S") && lines[6].contains("1"));
    assert!(lines[7].contains("QRV") && lines[7].contains("2"));
    assert!(lines[8].contains("QQIC") && lines[8].contains("125"));
    assert!(lines[9].contains("Number of Sources") && lines[9].contains("3"));
}

#[test]
fn v3_report_renders_all_three_fields() {
    let p = IGMPv3MembershipReportPacket { checksum: 0xffff, nb_group_records: 7 };
    let area = Rect::new(0, 0, 80, 10);
    let lines = render_lines(IgmpPacket::V3(IGMPv3Packet::Report(p)), area, 80, 10);

    assert!(some_line_contains(&lines, "IGMPv3"));
    assert!(lines[2].contains("Type") && lines[2].contains("IGMPv3 Membership Report"));
    assert!(lines[3].contains("Checksum") && lines[3].contains("0xffff"));
    assert!(lines[4].contains("Number Group Records") && lines[4].contains("7"));
}

#[test]
fn v1_renders_its_field_table() {
    let p = IGMPv1Packet {
        igmp_type: IgmpType::IGMPv1MembershipReport,
        max_response_time: 0,
        checksum: 0x00ff,
        group_address: 0xe0000002,
    };
    let area = Rect::new(0, 0, 80, 10);
    let lines = render_lines(IgmpPacket::V1(p), area, 80, 10);

    assert!(some_line_contains(&lines, "IGMPv1"));
    assert!(lines[2].contains("Type") && lines[2].contains("IGMPv1 Membership Report"));
    assert!(lines[3].contains("Checksum") && lines[3].contains("0x00ff"));
    assert!(lines[4].contains("Group Address") && lines[4].contains("224.0.0.2"));
}

#[test]
fn degenerate_regions_render_without_fault() {
    let p = IGMPv2Packet {
        igmp_type: IgmpType::MembershipQuery,
        max_response_time: 0,
        checksum: 0,
        group_address: 0,
    };
    for (w, h) in [(0u16, 0u16), (1, 1), (3, 3), (4, 4), (40, 1)] {
        let area = Rect::new(0, 0, w, h);
        let lines = render_lines(IgmpPacket::V2(p), area, 40, 10);
        assert_eq!(lines.len(), 10);
    }
}
