use rtt_console::errors::{AttachFailureCategory, ChannelDirection, ConsoleError};
use rtt_console::probe::{ProbeDescriptor, ProbeFilter};
use rtt_console::select::{choose_probe, filter_probes, probe_list_lines, select_probe};
use rtt_console::session::{
    bind_channels, should_advise_reset_retry, AttachStrategy, ChannelConfig, Opts,
};

fn probe(vid: u16, pid: u16, serial: Option<&str>, label: &str) -> ProbeDescriptor {
    ProbeDescriptor {
        vendor_id: vid,
        product_id: pid,
        serial_number: serial.map(|s| s.to_string()),
        identifier: label.to_string(),
    }
}

#[test]
fn parse_vid_pid() {
    let f = ProbeFilter::from_str("1a2b:3c4d").unwrap();
    assert_eq!(f.vid_pid, Some((0x1a2b, 0x3c4d)));
    assert_eq!(f.serial, None);
}

#[test]
fn parse_serial_only() {
    let f = ProbeFilter::from_str("SER123").unwrap();
    assert_eq!(f.vid_pid, None);
    assert_eq!(f.serial, Some("SER123".to_string()));
}

#[test]
fn parse_vid_pid_serial() {
    let f = ProbeFilter::from_str("1a2b:3c4d:SER123").unwrap();
    assert_eq!(f.vid_pid, Some((0x1a2b, 0x3c4d)));
    assert_eq!(f.serial, Some("SER123".to_string()));
}

#[test]
fn parse_too_many_parts_fails() {
    let r = ProbeFilter::from_str("a:b:c:d");
    assert!(matches!(r, Err(ConsoleError::InvalidFilterFormat)));
}

#[test]
fn parse_non_hex_fails() {
    let r = ProbeFilter::from_str("zz:yy");
    assert!(matches!(r, Err(ConsoleError::InvalidFilterFormat)));
}

#[test]
fn parse_overlong_id_fails() {
    let r = ProbeFilter::from_str("12345:1");
    assert!(matches!(r, Err(ConsoleError::InvalidFilterFormat)));
}

#[test]
fn parse_leading_zeroes_ok() {
    let f = ProbeFilter::from_str("00001a:002b").unwrap();
    assert_eq!(f.vid_pid, Some((0x1a, 0x2b)));
}

#[test]
fn parse_empty_token_is_empty_serial() {
    let f = ProbeFilter::from_str("").unwrap();
    assert_eq!(f.vid_pid, None);
    assert_eq!(f.serial, Some(String::new()));
}

#[test]
fn empty_filter_matches_everything() {
    let f = ProbeFilter { vid_pid: None, serial: None };
    assert!(f.matches(&probe(0x1a2b, 0x3c4d, None, "A")));
    assert!(f.matches(&probe(0, 0, Some("X"), "B")));
}

#[test]
fn serial_filter_rejects_probe_without_serial() {
    let f = ProbeFilter { vid_pid: None, serial: Some("SER123".to_string()) };
    assert!(!f.matches(&probe(0x1a2b, 0x3c4d, None, "A")));
    assert!(f.matches(&probe(0x1a2b, 0x3c4d, Some("SER123"), "A")));
    assert!(!f.matches(&probe(0x1a2b, 0x3c4d, Some("OTHER"), "A")));
}

#[test]
fn vid_pid_filter_needs_both_equal() {
    let f = ProbeFilter { vid_pid: Some((0x1a2b, 0x3c4d)), serial: None };
    assert!(f.matches(&probe(0x1a2b, 0x3c4d, None, "A")));
    assert!(!f.matches(&probe(0x1a2b, 0x0001, None, "A")));
    assert!(!f.matches(&probe(0x0001, 0x3c4d, None, "A")));
}

#[test]
fn filter_probes_keeps_exactly_the_matches() {
    let probes = vec![
        probe(0x1a2b, 0x3c4d, Some("one"), "A"),
        probe(0x1111, 0x2222, Some("two"), "B"),
        probe(0x1a2b, 0x3c4d, Some("three"), "C"),
    ];
    let f = ProbeFilter { vid_pid: Some((0x1a2b, 0x3c4d)), serial: None };
    let kept = filter_probes(&probes, &f);
    assert_eq!(kept.len(), 2);
    assert_eq!(kept[0].serial_number, Some("one".to_string()));
    assert_eq!(kept[1].serial_number, Some("three".to_string()));
}

#[test]
fn selection_without_filter_takes_the_sole_probe() {
    let probes = vec![probe(0x1a2b, 0x3c4d, Some("one"), "A")];
    let r = select_probe(&probes, None).unwrap();
    assert_eq!(r.vendor_id, 0x1a2b);
    assert_eq!(r.serial_number, Some("one".to_string()));
}

#[test]
fn selection_on_empty_enumeration_fails_no_probe_found() {
    let probes: Vec<ProbeDescriptor> = Vec::new();
    assert!(matches!(select_probe(&probes, None), Err(ConsoleError::NoProbeFound)));
    let f = ProbeFilter { vid_pid: None, serial: Some("S".to_string()) };
    assert!(matches!(select_probe(&probes, Some(&f)), Err(ConsoleError::NoProbeFound)));
}

#[test]
fn selection_with_no_match_fails_no_probe_found() {
    let probes = vec![probe(0x1111, 0x2222, None, "A")];
    let f = ProbeFilter { vid_pid: Some((0x1a2b, 0x3c4d)), serial: None };
    assert!(matches!(select_probe(&probes, Some(&f)), Err(ConsoleError::NoProbeFound)));
}

#[test]
fn ambiguous_selection_returns_all_candidates() {
    let probes = vec![
        probe(0x1a2b, 0x3c4d, Some("one"), "A"),
        probe(0x1111, 0x2222, None, "B"),
        probe(0x1a2b, 0x3c4d, Some("three"), "C"),
    ];
    let f = ProbeFilter { vid_pid: Some((0x1a2b, 0x3c4d)), serial: None };
    match select_probe(&probes, Some(&f)) {
        Err(ConsoleError::AmbiguousProbe(list)) => {
            assert_eq!(list.len(), 2);
            let lines = probe_list_lines(&list);
            assert_eq!(lines.len(), list.len());
        },
        _ => panic!("expected an ambiguous selection"),
    }
}

#[test]
fn choose_probe_by_selector_token() {
    let probes = vec![
        probe(0x1a2b, 0x3c4d, Some("one"), "A"),
        probe(0x1111, 0x2222, Some("two"), "B"),
    ];
    let r = choose_probe(&probes, Some("1111:2222")).unwrap();
    assert_eq!(r.serial_number, Some("two".to_string()));
    let r = choose_probe(&probes, Some("one")).unwrap();
    assert_eq!(r.vendor_id, 0x1a2b);
}

#[test]
fn choose_probe_rejects_malformed_selector() {
    let probes = vec![probe(0x1a2b, 0x3c4d, None, "A")];
    assert!(matches!(
        choose_probe(&probes, Some("not:hex")),
        Err(ConsoleError::InvalidFilterFormat)
    ));
}

#[test]
fn probe_line_renders_index_ids_and_serial() {
    let lines = probe_list_lines(&vec![
        probe(0x1366, 0x0101, Some("000012345678"), "J-Link"),
        probe(0x0d28, 0x0204, None, "DAPLink"),
    ]);
    assert_eq!(lines[0], "[0]: J-Link (VID: 1366, PID: 0101, Serial: 000012345678)");
    assert_eq!(lines[1], "[1]: DAPLink (VID: 0d28, PID: 0204)");
}

#[test]
fn attach_strategy_follows_connect_under_reset() {
    let mut opts = Opts {
        chip: "nRF52840_xxAA".to_string(),
        chip_description_path: None,
        connect_under_reset: false,
        probe: None,
        speed: None,
    };
    assert!(matches!(opts.attach_strategy(), AttachStrategy::Normal));
    opts.connect_under_reset = true;
    assert!(matches!(opts.attach_strategy(), AttachStrategy::UnderReset));
}

#[test]
fn reset_retry_advice_only_for_normal_jtag_no_device() {
    assert!(should_advise_reset_retry(
        &AttachStrategy::Normal,
        &AttachFailureCategory::JtagNoDeviceConnected
    ));
    assert!(!should_advise_reset_retry(
        &AttachStrategy::Normal,
        &AttachFailureCategory::Other
    ));
    assert!(!should_advise_reset_retry(
        &AttachStrategy::UnderReset,
        &AttachFailureCategory::JtagNoDeviceConnected
    ));
    assert!(!should_advise_reset_retry(
        &AttachStrategy::UnderReset,
        &AttachFailureCategory::Other
    ));
}

#[test]
fn channel_binding_needs_both_directions() {
    let cfg = ChannelConfig::default();
    assert_eq!(cfg.up_channel, 0);
    assert_eq!(cfg.down_channel, 0);
    assert!(bind_channels(&cfg, &vec![0, 1], &vec![0]).is_ok());
    assert!(matches!(
        bind_channels(&cfg, &vec![1], &vec![0]),
        Err(ConsoleError::ChannelUnavailable(ChannelDirection::Up))
    ));
    assert!(matches!(
        bind_channels(&cfg, &vec![0], &vec![]),
        Err(ConsoleError::ChannelUnavailable(ChannelDirection::Down))
    ));
}

#[test]
fn error_messages_name_the_failure() {
    assert_eq!(
        ConsoleError::NoProbeFound.message(),
        "no probe was found; common causes are faulty cables or missing permissions"
    );
    assert_eq!(
        ConsoleError::UnsupportedSpeed(4000).message(),
        "the probe rejected the requested speed in kHz: 4000"
    );
    assert_eq!(
        ConsoleError::CommunicationFailed("USB timeout".to_string()).message(),
        "probe communication failed: USB timeout"
    );
    assert_eq!(
        ConsoleError::ChannelUnavailable(ChannelDirection::Up).message(),
        "the RTT up channel is missing from the target's control block"
    );
}
