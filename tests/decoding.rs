use dhcp_options::framing::{split_records, RawRecord};
use dhcp_options::option82::{decode_sub_option, parse_sub_options};
use dhcp_options::options::decode_option;
use dhcp_options::DhcpOption::{
    BootFileSize, End, HostName, IPForwarding, IpAddressLeaseTime, MessageType, NetBiosNodeType,
    OptionOverload, Pad, ParamRequestList, PathMtuPlateauTable, RelayAgentInformation,
    RequestedIpAddress, Router, StaticRoute, TimeOffset,
};
use dhcp_options::RelayAgentInformationSubOption::{AgentCircuitID, SubscriberID};
use dhcp_options::{
    dhcp_option, parse, relay_agent_information_option_rfc3046, DhcpMessageTypes, DhcpOption,
    Ipv4Address, NetBiosNodeTypes, OptionOverloadTypes,
};

#[test]
fn end_stops_the_scan() {
    assert_eq!(parse(&[0, 255]), vec![Pad, End]);
    assert_eq!(parse(&[0, 255, 1, 2, 3]), vec![Pad, End]);
    assert_eq!(parse(&[0, 255, 12, 200]), vec![Pad, End]);
}

#[test]
fn empty_region_decodes_to_nothing() {
    assert_eq!(parse(&[]), Vec::<DhcpOption>::new());
}

#[test]
fn lone_tag_without_length_stops_the_scan() {
    assert_eq!(parse(&[0, 12]), vec![Pad]);
}

#[test]
fn malformed_values_are_skipped() {
    // an address of three bytes
    assert_eq!(parse(&[50, 3, 1, 2, 3, 0]), vec![Pad]);
    // text that is not UTF-8
    assert_eq!(parse(&[12, 2, 0xff, 0xfe, 255]), vec![End]);
    // an empty address list
    assert_eq!(parse(&[3, 0, 0]), vec![Pad]);
    // a lease time of two bytes, then a good record
    assert_eq!(
        parse(&[51, 2, 0, 1, 51, 4, 0, 0, 4, 176]),
        vec![IpAddressLeaseTime(1200)]
    );
}

#[test]
fn flags_accept_one_only() {
    assert_eq!(parse(&[19, 1, 1]), vec![IPForwarding(true)]);
    assert_eq!(parse(&[19, 1, 0, 0]), vec![Pad]);
    assert_eq!(parse(&[19, 1, 2]), Vec::<DhcpOption>::new());
    assert_eq!(parse(&[19, 2, 1, 1]), Vec::<DhcpOption>::new());
}

#[test]
fn enumerations_reject_unknown_bytes() {
    assert_eq!(parse(&[53, 1, 8, 0]), vec![Pad]);
    assert_eq!(parse(&[53, 1, 0]), Vec::<DhcpOption>::new());
    assert_eq!(parse(&[53, 2, 1, 1]), Vec::<DhcpOption>::new());
    assert_eq!(parse(&[46, 1, 8]), vec![NetBiosNodeType(NetBiosNodeTypes::HNode)]);
    assert_eq!(parse(&[46, 1, 4]), vec![NetBiosNodeType(NetBiosNodeTypes::MNode)]);
    assert_eq!(parse(&[46, 1, 3]), Vec::<DhcpOption>::new());
    assert_eq!(parse(&[52, 1, 3]), vec![OptionOverload(OptionOverloadTypes::Both)]);
    assert_eq!(parse(&[52, 1, 4]), Vec::<DhcpOption>::new());
}

#[test]
fn signed_time_offset_is_twos_complement() {
    assert_eq!(parse(&[2, 4, 255, 255, 255, 254]), vec![TimeOffset(-2)]);
    assert_eq!(parse(&[2, 4, 128, 0, 0, 0]), vec![TimeOffset(i32::MIN)]);
    assert_eq!(parse(&[2, 4, 127, 255, 255, 255]), vec![TimeOffset(i32::MAX)]);
    assert_eq!(parse(&[2, 4, 0, 0, 14, 16]), vec![TimeOffset(3600)]);
}

#[test]
fn sixteen_bit_values_are_big_endian() {
    assert_eq!(parse(&[13, 2, 1, 2]), vec![BootFileSize(258)]);
    assert_eq!(parse(&[13, 3, 1, 2, 3]), Vec::<DhcpOption>::new());
    assert_eq!(
        parse(&[25, 4, 0x02, 0x40, 0x05, 0xdc]),
        vec![PathMtuPlateauTable(vec![576, 1500])]
    );
    assert_eq!(parse(&[25, 3, 0x02, 0x40, 0x05]), Vec::<DhcpOption>::new());
}

#[test]
fn address_pairs_interleave() {
    assert_eq!(
        parse(&[33, 16, 10, 0, 0, 0, 255, 0, 0, 0, 192, 168, 1, 0, 255, 255, 255, 0]),
        vec![StaticRoute(vec![
            (Ipv4Address::new(10, 0, 0, 0), Ipv4Address::new(255, 0, 0, 0)),
            (Ipv4Address::new(192, 168, 1, 0), Ipv4Address::new(255, 255, 255, 0)),
        ])]
    );
    assert_eq!(parse(&[33, 4, 10, 0, 0, 0]), Vec::<DhcpOption>::new());
}

#[test]
fn text_is_decoded_from_utf8() {
    assert_eq!(parse(&[12, 4, 84, 101, 115, 116]), vec![HostName("Test".to_string())]);
    assert_eq!(parse(&[12, 2, 0xc3, 0xa9]), vec![HostName("\u{e9}".to_string())]);
    assert_eq!(parse(&[12, 0]), vec![HostName(String::new())]);
}

#[test]
fn byte_lists_are_copied() {
    assert_eq!(parse(&[55, 3, 1, 3, 6]), vec![ParamRequestList(vec![1, 3, 6])]);
    assert_eq!(parse(&[55, 0]), vec![ParamRequestList(vec![])]);
}

#[test]
fn a_full_region_decodes_in_order() {
    let region = [
        53, 1, 1, // Discover
        50, 4, 192, 168, 1, 1, // requested address
        254, 2, 9, 9, // unknown
        3, 8, 127, 0, 0, 1, 192, 168, 1, 1, // routers
        82, 8, 1, 6, 0, 1, 2, 3, 4, 5, // relay agent information
        0, 255, 7, 7,
    ];
    assert_eq!(
        parse(&region),
        vec![
            MessageType(DhcpMessageTypes::Discover),
            RequestedIpAddress(Ipv4Address::new(192, 168, 1, 1)),
            Router(vec![Ipv4Address::new(127, 0, 0, 1), Ipv4Address::new(192, 168, 1, 1)]),
            RelayAgentInformation(vec![AgentCircuitID(vec![0, 1, 2, 3, 4, 5])]),
            Pad,
            End,
        ]
    );
}

#[test]
fn decoding_distributes_over_whole_regions() {
    let a = vec![0u8, 51, 4, 0, 0, 4, 176];
    let b = vec![50u8, 4, 192, 168, 1, 1, 0, 255];
    let mut ab = a.clone();
    ab.extend_from_slice(&b);
    let mut expected = parse(&a);
    expected.extend(parse(&b));
    assert_eq!(parse(&ab), expected);
}

#[test]
fn rejected_record_leaves_the_rest() {
    let rest = [51u8, 4, 0, 0, 4, 176, 255];
    let mut with = vec![0u8, 200, 3, 1, 2, 3];
    with.extend_from_slice(&rest);
    let mut without = vec![0u8];
    without.extend_from_slice(&rest);
    assert_eq!(parse(&with), parse(&without));
    assert_eq!(parse(&with), vec![Pad, IpAddressLeaseTime(1200), End]);
}

#[test]
fn nested_stream_has_no_sentinels() {
    // a sub-option of length zero
    assert_eq!(parse(&[82, 2, 1, 0]), vec![RelayAgentInformation(vec![AgentCircuitID(vec![])])]);
    // 0 is an unknown sub-option tag, not Pad
    assert_eq!(parse(&[82, 3, 0, 1, 5]), vec![RelayAgentInformation(vec![])]);
    // 255 is an unknown sub-option tag, not End
    assert_eq!(
        parse(&[82, 5, 255, 0, 1, 1, 7]),
        vec![RelayAgentInformation(vec![AgentCircuitID(vec![7])])]
    );
    // malformed sub-option text is skipped
    assert_eq!(
        parse_sub_options(&[6, 1, 0xff, 6, 2, 104, 105]),
        vec![SubscriberID("hi".to_string())]
    );
    // a lone trailing byte ends the nested scan
    assert_eq!(parse_sub_options(&[1, 1, 9, 2]), vec![AgentCircuitID(vec![9])]);
}

#[test]
fn single_record_reports_its_length() {
    assert_eq!(dhcp_option(&[0, 1, 2]), Some((Pad, 1)));
    assert_eq!(dhcp_option(&[255]), Some((End, 1)));
    assert_eq!(dhcp_option(&[51, 4, 0, 0, 4, 176, 0]), Some((IpAddressLeaseTime(1200), 6)));
    assert_eq!(dhcp_option(&[254, 1, 0]), None);
    assert_eq!(dhcp_option(&[51, 4, 0, 0]), None);
    assert_eq!(dhcp_option(&[]), None);
    assert_eq!(relay_agent_information_option_rfc3046(&[51, 4, 0, 0, 4, 176]), None);
    assert_eq!(
        relay_agent_information_option_rfc3046(&[82, 0, 0]),
        Some((RelayAgentInformation(vec![]), 2))
    );
}

#[test]
fn records_are_framed_in_order() {
    assert_eq!(
        split_records(&[0, 254, 1, 9, 255, 7], true),
        vec![
            RawRecord { tag: 0, value: vec![] },
            RawRecord { tag: 254, value: vec![9] },
            RawRecord { tag: 255, value: vec![] },
        ]
    );
    assert_eq!(
        split_records(&[0, 1, 9, 2, 0, 3, 5], false),
        vec![RawRecord { tag: 0, value: vec![9] }, RawRecord { tag: 2, value: vec![] }]
    );
}

#[test]
fn record_decoders_by_tag() {
    assert_eq!(decode_option(1, &[255, 255, 255, 0]), Some(DhcpOption::SubnetMask(Ipv4Address::new(255, 255, 255, 0))));
    assert_eq!(decode_option(21, &[1, 2, 3, 4, 5, 6, 7, 8]), None);
    assert_eq!(decode_option(0, &[]), Some(Pad));
    assert_eq!(decode_sub_option(10, &[3]), Some(dhcp_options::RelayAgentInformationSubOption::RelayAgentFlags(3)));
    assert_eq!(decode_sub_option(3, &[3]), None);
    assert_eq!(Ipv4Address::new(10, 1, 2, 3).octets, [10, 1, 2, 3]);
}
