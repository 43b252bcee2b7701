use enclave_net::configuration::{
    get_cert_provisioner_host, get_e3_host, parse_egress_allow_list, parse_egress_ports,
};

#[test]
fn hosts_are_fixed() {
    assert_eq!(get_cert_provisioner_host(), "provisioner.cages.internal");
    assert_eq!(get_e3_host(), "e3.cages-e3.internal");
}

#[test]
fn egress_ports_two_values() {
    assert_eq!(parse_egress_ports(b"443,8443"), Some(vec![443u16, 8443u16]));
}

#[test]
fn egress_ports_single_default() {
    assert_eq!(parse_egress_ports(b"443"), Some(vec![443u16]));
}

#[test]
fn egress_ports_empty_is_fatal() {
    assert!(parse_egress_ports(b"").is_none());
}

#[test]
fn egress_ports_non_numeric_is_fatal() {
    assert!(parse_egress_ports(b"44a3").is_none());
    assert!(parse_egress_ports(b"443,").is_none());
    assert!(parse_egress_ports(b"-1").is_none());
}

#[test]
fn egress_ports_out_of_range_is_fatal() {
    assert!(parse_egress_ports(b"65536").is_none());
    assert_eq!(parse_egress_ports(b"65535"), Some(vec![65535u16]));
    assert_eq!(parse_egress_ports(b"000443"), Some(vec![443u16]));
}

#[test]
fn allow_list_splits_on_commas() {
    let list = parse_egress_allow_list(b"example.com,foo.io");
    assert_eq!(list, vec![b"example.com".to_vec(), b"foo.io".to_vec()]);
}

#[test]
fn allow_list_empty_means_no_egress() {
    let list = parse_egress_allow_list(b"");
    assert_eq!(list, vec![Vec::<u8>::new()]);
}
