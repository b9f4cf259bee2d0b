use host_bridge::identity::{classify, get_mac_address, host_identity, lookup_host};
use host_bridge::identity::{HardwareAddress, Lookup};

#[test]
fn host_identity_of_found_interface() {
    let address = HardwareAddress::new([0xAA, 0xBB, 0xCC, 0xDD, 0xEE, 0xFF]);
    assert_eq!(
        host_identity(&Lookup::Found(address)),
        Some(String::from("AA:BB:CC:DD:EE:FF"))
    );
}

#[test]
fn host_identity_pads_each_octet_to_two_digits() {
    let address = HardwareAddress::new([0x01, 0x0A, 0x00, 0x10, 0x9F, 0xF0]);
    assert_eq!(
        host_identity(&Lookup::Found(address)),
        Some(String::from("01:0A:00:10:9F:F0"))
    );
}

#[test]
fn host_identity_absent_without_interface() {
    assert_eq!(host_identity(&Lookup::NotFound), None);
}

#[test]
fn host_identity_absent_when_query_failed() {
    assert_eq!(host_identity(&Lookup::Failed), None);
}

#[test]
fn to_text_is_upper_case_hex_with_colons() {
    assert_eq!(HardwareAddress::new([0; 6]).to_text(), "00:00:00:00:00:00");
    assert_eq!(HardwareAddress::new([255; 6]).to_text(), "FF:FF:FF:FF:FF:FF");
    assert_eq!(
        HardwareAddress::new([0x80, 0xFA, 0x5B, 0x41, 0x10, 0x6B]).to_text(),
        "80:FA:5B:41:10:6B"
    );
}

#[test]
fn to_text_has_two_digits_for_every_octet_value() {
    let digits: Vec<char> = "0123456789ABCDEF".chars().collect();
    for value in 0..=255u8 {
        let text = HardwareAddress::new([value, 0, value, 0xFF, value, 7]).to_text();
        let characters: Vec<char> = text.chars().collect();
        assert_eq!(characters.len(), 17);
        for pair in [0usize, 2, 4] {
            assert_eq!(characters[3 * pair], digits[(value / 16) as usize]);
            assert_eq!(characters[3 * pair + 1], digits[(value % 16) as usize]);
        }
        for colon in [2usize, 5, 8, 11, 14] {
            assert_eq!(characters[colon], ':');
        }
    }
}

#[test]
fn to_text_tells_addresses_apart() {
    let first = HardwareAddress::new([1, 2, 3, 4, 5, 6]);
    let second = HardwareAddress::new([1, 2, 3, 4, 5, 7]);
    assert_ne!(first.to_text(), second.to_text());
}

#[test]
fn to_text_parses_back_to_the_same_octets() {
    let octets = [0x48, 0x27, 0xE2, 0x44, 0x25, 0xD8];
    let text = HardwareAddress::new(octets).to_text();
    let parsed: mac_address::MacAddress = text.parse().unwrap();
    assert_eq!(parsed.bytes(), octets);
}

#[test]
fn classify_sorts_the_three_outcomes() {
    let octets = [0xAA, 0xBB, 0xCC, 0xDD, 0xEE, 0xFF];
    assert_eq!(
        classify(Ok(Some(octets))),
        Lookup::Found(HardwareAddress { octets })
    );
    assert_eq!(classify(Ok(None)), Lookup::NotFound);
    assert_eq!(
        classify(Err(mac_address::MacAddressError::InternalError)),
        Lookup::Failed
    );
}

#[test]
fn failed_query_is_reported_as_absent() {
    let lookup = classify(Err(mac_address::MacAddressError::InternalError));
    assert_eq!(host_identity(&lookup), None);
}

#[test]
fn get_mac_address_is_absent_or_an_address() {
    match get_mac_address() {
        None => {}
        Some(text) => {
            let characters: Vec<char> = text.chars().collect();
            assert_eq!(characters.len(), 17);
            for (at, c) in characters.iter().enumerate() {
                if at % 3 == 2 {
                    assert_eq!(*c, ':');
                } else {
                    assert!(c.is_ascii_digit() || ('A'..='F').contains(c));
                }
            }
        }
    }
}

#[test]
fn get_mac_address_twice_gives_the_same() {
    let first = get_mac_address();
    let second = get_mac_address();
    assert_eq!(first, second);
}

#[test]
fn get_mac_address_agrees_with_the_lookup() {
    let lookup = lookup_host();
    assert_eq!(get_mac_address(), host_identity(&lookup));
}

#[test]
fn lookup_host_never_finds_the_address_of_all_zeros() {
    match lookup_host() {
        Lookup::Found(address) => assert!(address.octets.iter().any(|octet| *octet != 0)),
        Lookup::NotFound => {}
        Lookup::Failed => {}
    }
}

#[test]
fn get_mac_address_is_never_the_text_of_all_zeros() {
    assert_ne!(get_mac_address(), Some(String::from("00:00:00:00:00:00")));
}

#[test]
fn lookup_host_agrees_with_the_outside_query() {
    let expected = match mac_address::get_mac_address() {
        Ok(Some(found)) => Lookup::Found(HardwareAddress::new(found.bytes())),
        Ok(None) => Lookup::NotFound,
        Err(_) => Lookup::Failed,
    };
    assert_eq!(lookup_host(), expected);
}
