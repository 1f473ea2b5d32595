use srun::get_ip_by_if_name;
use srun::utils::{
    address_source, choose_ip, find_ip_by_name, get_ifs, parse_choice, without_loopback,
    AddressSource, NetInterface, CHOICE_TRIES,
};

fn interface(name: &str, ip: &str, loopback: bool) -> NetInterface {
    NetInterface { name: name.to_string(), ip: ip.to_string(), loopback }
}

fn host() -> Vec<NetInterface> {
    vec![
        interface("lo", "127.0.0.1", true),
        interface("eth0", "10.0.0.5", false),
        interface("wlp3s0", "192.168.1.20", false),
        interface("wlp3s0", "fe80::1", false),
    ]
}

#[test]
fn test_get_ip_by_name() {
    println!("{:?}", get_ip_by_if_name("wlp3s0"));
}

#[test]
fn lookup_of_a_name_that_no_interface_has() {
    assert_eq!(get_ip_by_if_name("no-such-interface-name-anywhere"), None);
}

#[test]
fn find_takes_the_first_interface_with_the_name() {
    assert_eq!(find_ip_by_name(&host(), "eth0"), Some("10.0.0.5".to_string()));
    assert_eq!(find_ip_by_name(&host(), "wlp3s0"), Some("192.168.1.20".to_string()));
}

#[test]
fn find_matches_a_part_of_the_name() {
    assert_eq!(find_ip_by_name(&host(), "wlp"), Some("192.168.1.20".to_string()));
    assert_eq!(find_ip_by_name(&host(), "0"), Some("10.0.0.5".to_string()));
    assert_eq!(find_ip_by_name(&host(), ""), Some("10.0.0.5".to_string()));
}

#[test]
fn find_skips_loopback_addresses() {
    assert_eq!(find_ip_by_name(&host(), "lo"), None);
    let only_loopback = vec![interface("lo", "127.0.0.1", true)];
    assert_eq!(find_ip_by_name(&only_loopback, ""), None);
}

#[test]
fn find_without_a_match() {
    assert_eq!(find_ip_by_name(&host(), "eth1"), None);
    assert_eq!(find_ip_by_name(&Vec::new(), "eth0"), None);
}

#[test]
fn a_user_is_asked_three_times() {
    assert_eq!(CHOICE_TRIES, 3);
}

#[test]
fn the_only_address_needs_no_choice() {
    let ips = vec!["10.0.0.5".to_string()];
    assert_eq!(choose_ip(&ips, None), Some("10.0.0.5".to_string()));
    assert_eq!(choose_ip(&ips, Some(7)), Some("10.0.0.5".to_string()));
}

#[test]
fn a_choice_counts_from_one() {
    let ips = vec!["10.0.0.5".to_string(), "192.168.1.20".to_string()];
    assert_eq!(choose_ip(&ips, Some(1)), Some("10.0.0.5".to_string()));
    assert_eq!(choose_ip(&ips, Some(2)), Some("192.168.1.20".to_string()));
}

#[test]
fn a_choice_out_of_range_picks_nothing() {
    let ips = vec!["10.0.0.5".to_string(), "192.168.1.20".to_string()];
    assert_eq!(choose_ip(&ips, Some(0)), None);
    assert_eq!(choose_ip(&ips, Some(3)), None);
    assert_eq!(choose_ip(&ips, None), None);
    assert_eq!(choose_ip(&Vec::new(), Some(1)), None);
    assert_eq!(choose_ip(&Vec::new(), None), None);
}

#[test]
fn host_interfaces_come_without_loopback() {
    if let Some(list) = get_ifs() {
        assert!(list.iter().all(|i| !i.loopback));
    }
}

#[test]
fn without_loopback_keeps_the_order() {
    assert_eq!(
        without_loopback(host()),
        vec![
            interface("eth0", "10.0.0.5", false),
            interface("wlp3s0", "192.168.1.20", false),
            interface("wlp3s0", "fe80::1", false),
        ]
    );
    assert_eq!(without_loopback(Vec::new()), Vec::<NetInterface>::new());
}

#[test]
fn address_source_prefers_the_given_address() {
    assert_eq!(
        address_source(Some("10.0.0.5".to_string()), true, true),
        AddressSource::Given("10.0.0.5".to_string())
    );
    assert_eq!(address_source(Some(String::new()), false, false), AddressSource::Given(String::new()));
    assert_eq!(address_source(None, true, true), AddressSource::Select);
    assert_eq!(address_source(None, true, false), AddressSource::Select);
    assert_eq!(address_source(None, false, true), AddressSource::Detect);
    assert_eq!(address_source(None, false, false), AddressSource::Missing);
}

#[test]
fn parse_choice_reads_a_number_between_blanks() {
    assert_eq!(parse_choice("2\n"), Some(2));
    assert_eq!(parse_choice("  17 \r\n"), Some(17));
    assert_eq!(parse_choice("\t3"), Some(3));
    assert_eq!(parse_choice("0"), Some(0));
    assert_eq!(parse_choice("007"), Some(7));
    assert_eq!(parse_choice("+5\n"), Some(5));
}

#[test]
fn parse_choice_rejects_what_is_no_number() {
    assert_eq!(parse_choice(""), None);
    assert_eq!(parse_choice("\n"), None);
    assert_eq!(parse_choice("   "), None);
    assert_eq!(parse_choice("abc\n"), None);
    assert_eq!(parse_choice("1 2\n"), None);
    assert_eq!(parse_choice("-1\n"), None);
    assert_eq!(parse_choice("+\n"), None);
    assert_eq!(parse_choice("++1\n"), None);
    assert_eq!(parse_choice("+ 1\n"), None);
    assert_eq!(parse_choice("1.5\n"), None);
    assert_eq!(parse_choice("12a\n"), None);
}

#[test]
fn parse_choice_at_the_limit_of_usize() {
    assert_eq!(parse_choice(&usize::MAX.to_string()), Some(usize::MAX));
    assert_eq!(parse_choice(&format!("{}0", usize::MAX)), None);
    assert_eq!(parse_choice("340282366920938463463374607431768211456"), None);
    let above = (usize::MAX as u128 + 1).to_string();
    assert_eq!(parse_choice(&above), None);
}

#[test]
fn parse_choice_agrees_with_std() {
    for line in ["1", " 42 ", "+9", "x", "", "18446744073709551615", "18446744073709551616", "00", "4\n"] {
        assert_eq!(parse_choice(line), line.trim().parse::<usize>().ok());
    }
}

#[test]
fn parse_choice_cuts_unicode_white_space() {
    assert_eq!(parse_choice("\u{a0}5\u{3000}"), Some(5));
    assert_eq!(parse_choice("\u{2003}12\u{2028}\u{85}"), Some(12));
    assert_eq!(parse_choice("\u{1680}\u{205f}+3\u{202f}\u{200a}\u{2029}\u{b}\u{c}"), Some(3));
    assert_eq!(parse_choice("\u{200b}5"), None);
    assert_eq!(parse_choice("5\u{feff}"), None);
    assert_eq!(parse_choice("\u{661}"), None);
}

#[test]
fn parse_choice_agrees_with_std_on_unicode() {
    for line in [
        "\u{a0}5\u{3000}",
        "\u{2000}7",
        "7\u{200a}",
        "\u{200b}7",
        "\u{85}8\u{85}",
        "\u{1c}9",
        "\u{e9}",
        "1\u{a0}2",
        "\u{ff11}",
    ] {
        assert_eq!(parse_choice(line), line.trim().parse::<usize>().ok());
    }
}
