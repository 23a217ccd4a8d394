use polars_network::argument::{ArgumentRole, NetworkError};
use polars_network::expressions::{cidr_contains, cidr_subnet_of};
use polars_network::network::{network_contains, NetworkAddress, V4Network, V6Network};
use polars_network::parse::{parse_network, parse_optional_network};

fn cell(s: &str) -> Option<String> {
    Some(s.to_string())
}

fn column(cells: &[Option<&str>]) -> Vec<Option<String>> {
    cells.iter().map(|c| c.map(|s| s.to_string())).collect()
}

fn v4(a: u8, b: u8, c: u8, d: u8) -> u32 {
    u32::from_be_bytes([a, b, c, d])
}

#[test]
fn parse_masks_host_bits() {
    let n = parse_network("10.1.9.32/16").unwrap();
    assert_eq!(n, NetworkAddress::V4(V4Network { base: v4(10, 1, 0, 0), prefix: 16 }));
}

#[test]
fn parse_bare_v4_address_is_host_network() {
    let n = parse_network("192.168.1.7").unwrap();
    assert_eq!(n, NetworkAddress::V4(V4Network { base: v4(192, 168, 1, 7), prefix: 32 }));
}

#[test]
fn parse_v6_network() {
    let n = parse_network("2001:db8::1/32").unwrap();
    assert_eq!(n, NetworkAddress::V6(V6Network { base: 0x2001_0db8u128 << 96, prefix: 32 }));
    let host = parse_network("::1").unwrap();
    assert_eq!(host, NetworkAddress::V6(V6Network { base: 1, prefix: 128 }));
}

#[test]
fn parse_rejects_malformed_text() {
    assert_eq!(parse_network("not-an-ip"), None);
    assert_eq!(parse_network("bad/cidr"), None);
    assert_eq!(parse_network("10.0.0.0/33"), None);
    assert_eq!(parse_network("::/129"), None);
    assert_eq!(parse_network("10.0.0.0/8/8"), None);
    assert_eq!(parse_optional_network(&None), None);
    assert_eq!(parse_optional_network(&cell("10.0.0.0/8")), parse_network("10.0.0.0/8"));
}

#[test]
fn primitive_prefix_order() {
    let wide = parse_network("10.0.0.0/16").unwrap();
    let narrow = parse_network("10.0.0.0/24").unwrap();
    assert!(network_contains(&wide, &narrow));
    assert!(!network_contains(&narrow, &wide));
    let other = parse_network("10.1.0.0/24").unwrap();
    assert!(!network_contains(&wide, &other));
}

#[test]
fn contains_row_within_argument() {
    let out = cidr_contains(&[column(&[Some("10.0.0.0/24")]), column(&[Some("10.0.0.0/16")])]).unwrap();
    assert_eq!(out, vec![Some(true)]);
    let out = cidr_contains(&[column(&[Some("10.0.0.0/16")]), column(&[Some("10.0.0.0/24")])]).unwrap();
    assert_eq!(out, vec![Some(false)]);
}

#[test]
fn subnet_of_argument_within_row() {
    let out = cidr_subnet_of(&[column(&[Some("10.0.0.0/16")]), column(&[Some("10.0.0.0/24")])]).unwrap();
    assert_eq!(out, vec![Some(true)]);
    let out = cidr_subnet_of(&[column(&[Some("10.0.0.0/24")]), column(&[Some("10.0.0.0/16")])]).unwrap();
    assert_eq!(out, vec![Some(false)]);
}

#[test]
fn contains_reflexive() {
    let values = column(&[Some("10.0.0.0/8"), Some("192.168.1.1"), Some("2001:db8::/32"), Some("::/0")]);
    let out = cidr_contains(&[values.clone(), values.clone()]).unwrap();
    assert_eq!(out, vec![Some(true); 4]);
    let out = cidr_subnet_of(&[values.clone(), values]).unwrap();
    assert_eq!(out, vec![Some(true); 4]);
}

#[test]
fn family_mismatch_is_false_not_null() {
    let out = cidr_contains(&[column(&[Some("2001:db8::/32")]), column(&[Some("10.0.0.0/8")])]).unwrap();
    assert_eq!(out, vec![Some(false)]);
    let out = cidr_subnet_of(&[column(&[Some("10.0.0.0/8")]), column(&[Some("::/0")])]).unwrap();
    assert_eq!(out, vec![Some(false)]);
}

#[test]
fn null_and_malformed_rows_give_null() {
    let values = column(&[None, Some("not-an-ip"), Some("10.1.2.3")]);
    let out = cidr_contains(&[values.clone(), column(&[Some("10.0.0.0/8")])]).unwrap();
    assert_eq!(out, vec![None, None, Some(true)]);
    let out = cidr_subnet_of(&[values, column(&[Some("10.0.0.0/8")])]).unwrap();
    assert_eq!(out, vec![None, None, Some(false)]);
}

#[test]
fn malformed_literal_is_an_error() {
    let values = column(&[Some("10.0.0.1"), Some("10.0.0.2")]);
    match cidr_contains(&[values.clone(), column(&[Some("bad/cidr")])]) {
        Err(NetworkError::InvalidLiteralArgument { role, value }) => {
            assert_eq!(role, ArgumentRole::Needle);
            assert_eq!(value, cell("bad/cidr"));
        }
        other => panic!("unexpected result: {:?}", other),
    }
    match cidr_subnet_of(&[values, column(&[None])]) {
        Err(NetworkError::InvalidLiteralArgument { role, value }) => {
            assert_eq!(role, ArgumentRole::Supernet);
            assert_eq!(value, None);
        }
        other => panic!("unexpected result: {:?}", other),
    }
}

#[test]
fn argument_length_mismatch_is_an_error() {
    let values = column(&[Some("10.0.0.1"), Some("10.0.0.2"), Some("10.0.0.3")]);
    let argument = column(&[Some("10.0.0.0/8"), Some("10.0.0.0/8")]);
    match cidr_contains(&[values.clone(), argument.clone()]) {
        Err(NetworkError::LengthMismatch { role, expected, got }) => {
            assert_eq!(role, ArgumentRole::Needle);
            assert_eq!(expected, 3);
            assert_eq!(got, 2);
        }
        other => panic!("unexpected result: {:?}", other),
    }
    match cidr_subnet_of(&[values, Vec::new()]) {
        Err(NetworkError::LengthMismatch { role, expected, got }) => {
            assert_eq!(role, ArgumentRole::Supernet);
            assert_eq!(expected, 3);
            assert_eq!(got, 0);
        }
        other => panic!("unexpected result: {:?}", other),
    }
}

#[test]
fn wrong_number_of_operands_is_an_error() {
    let values = column(&[Some("10.0.0.1")]);
    assert!(matches!(cidr_contains(&[values.clone()]), Err(NetworkError::Arity { got: 1 })));
    assert!(matches!(
        cidr_subnet_of(&[values.clone(), values.clone(), values]),
        Err(NetworkError::Arity { got: 3 })
    ));
}

#[test]
fn per_row_argument_with_bad_entries() {
    let values = column(&[Some("10.0.0.5"), Some("10.0.0.6"), Some("172.16.0.1"), None]);
    let argument = column(&[Some("10.0.0.0/24"), Some("garbage"), Some("10.0.0.0/8"), Some("0.0.0.0/0")]);
    let out = cidr_contains(&[values, argument]).unwrap();
    assert_eq!(out, vec![Some(true), None, Some(false), None]);
}

#[test]
fn zero_prefix_holds_everything() {
    let v4s = column(&[Some("10.0.0.0/8"), Some("255.255.255.255"), Some("10.1.2.3"), Some("0.0.0.0")]);
    let out = cidr_contains(&[v4s.clone(), column(&[Some("0.0.0.0/0")])]).unwrap();
    assert_eq!(out, vec![Some(true); 4]);
    let v6s = column(&[Some("2001:db8::/32"), Some("ffff::1"), Some("::1"), Some("::")]);
    let out = cidr_contains(&[v6s, column(&[Some("::/0")])]).unwrap();
    assert_eq!(out, vec![Some(true); 4]);
    let whole = column(&[Some("0.0.0.0/0"); 4]);
    let out = cidr_subnet_of(&[whole, v4s]).unwrap();
    assert_eq!(out, vec![Some(true); 4]);
}

#[test]
fn subnet_of_equals_swapped_contains() {
    let a = column(&[Some("10.0.0.0/24"), Some("10.0.0.0/8"), Some("2001:db8::/48"), Some("10.0.0.0/8")]);
    let b = column(&[Some("10.0.0.0/16"), Some("10.0.0.0/16"), Some("2001:db8::/32"), Some("::/0")]);
    let left = cidr_subnet_of(&[a.clone(), b.clone()]).unwrap();
    let right = cidr_contains(&[b, a]).unwrap();
    assert_eq!(left, right);
    assert_eq!(left, vec![Some(false), Some(true), Some(false), Some(false)]);
}

#[test]
fn repeated_calls_agree_and_keep_order() {
    let values = column(&[Some("192.168.0.1"), None, Some("10.2.3.4"), Some("::1")]);
    let argument = column(&[Some("10.0.0.0/8")]);
    let first = cidr_contains(&[values.clone(), argument.clone()]).unwrap();
    let second = cidr_contains(&[values, argument]).unwrap();
    assert_eq!(first, second);
    assert_eq!(first, vec![Some(false), None, Some(true), Some(false)]);
}

#[test]
fn reordered_rows_reorder_outcomes() {
    let values = column(&[Some("10.0.0.1"), Some("172.16.0.1"), None, Some("10.9.0.0/16")]);
    let argument = column(&[Some("10.0.0.0/8"), Some("10.0.0.0/8"), Some("10.0.0.0/8"), Some("bad")]);
    let out = cidr_contains(&[values.clone(), argument.clone()]).unwrap();
    assert_eq!(out, vec![Some(true), Some(false), None, None]);
    let perm = [3usize, 0, 2, 1];
    let values2: Vec<Option<String>> = perm.iter().map(|&i| values[i].clone()).collect();
    let argument2: Vec<Option<String>> = perm.iter().map(|&i| argument[i].clone()).collect();
    let out2 = cidr_contains(&[values2, argument2]).unwrap();
    let expected: Vec<Option<bool>> = perm.iter().map(|&i| out[i]).collect();
    assert_eq!(out2, expected);
}

#[test]
fn empty_input_gives_empty_output() {
    let out = cidr_contains(&[Vec::new(), column(&[Some("10.0.0.0/8")])]).unwrap();
    assert_eq!(out, Vec::<Option<bool>>::new());
}
