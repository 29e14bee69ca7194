use igmp_view::igmp::IgmpType;

#[test]
fn classify_membership_query() {
    assert_eq!(IgmpType::classify(0x11), Ok(IgmpType::MembershipQuery));
}

#[test]
fn classify_v1_membership_report() {
    assert_eq!(IgmpType::classify(0x12), Ok(IgmpType::IGMPv1MembershipReport));
}

#[test]
fn classify_v2_membership_report() {
    assert_eq!(IgmpType::classify(0x16), Ok(IgmpType::IGMPv2MembershipReport));
}

#[test]
fn classify_v3_membership_report() {
    assert_eq!(IgmpType::classify(0x22), Ok(IgmpType::IGMPv3MembershipReport));
}

#[test]
fn classify_leave_group() {
    assert_eq!(IgmpType::classify(0x17), Ok(IgmpType::LeaveGroup));
}

#[test]
fn classify_rejects_every_other_code() {
    let valid = [0x11u8, 0x12, 0x16, 0x17, 0x22];
    for code in 0..=255u8 {
        let r = IgmpType::classify(code);
        if valid.contains(&code) {
            assert!(r.is_ok(), "code {code:#x} should classify");
        } else {
            assert_eq!(r, Err("Unknown igmp type"), "code {code:#x} should be rejected");
        }
    }
}

#[test]
fn label_membership_query() {
    assert_eq!(IgmpType::MembershipQuery.label(), "Membership Query");
}

#[test]
fn label_v1_membership_report() {
    assert_eq!(IgmpType::IGMPv1MembershipReport.label(), "IGMPv1 Membership Report");
}

#[test]
fn label_v2_membership_report() {
    assert_eq!(IgmpType::IGMPv2MembershipReport.label(), "IGMPv2 Membership Report");
}

#[test]
fn label_v3_membership_report() {
    assert_eq!(IgmpType::IGMPv3MembershipReport.label(), "IGMPv3 Membership Report");
}

#[test]
fn label_leave_group() {
    assert_eq!(IgmpType::LeaveGroup.label(), "Leave Group");
}
