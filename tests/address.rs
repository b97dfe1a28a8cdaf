use hbbs_core::address::{
    bind_tokens, default_bind_addresses, resolve_bind_addresses, trim_bytes, AddressError,
    BindAddress, IpAddress, Stack, RENDEZVOUS_PORT,
};

fn v4(a: u8, b: u8, c: u8, d: u8, port: u16) -> BindAddress {
    let bits = ((a as u32) << 24) | ((b as u32) << 16) | ((c as u32) << 8) | (d as u32);
    BindAddress { ip: IpAddress::V4(bits), port }
}

#[test]
fn tokens_are_split_and_trimmed_in_order() {
    let t = bind_tokens(b" 0.0.0.0:21116 ,\t[::]:21116,127.0.0.1:80 ");
    assert_eq!(
        t,
        vec![b"0.0.0.0:21116".to_vec(), b"[::]:21116".to_vec(), b"127.0.0.1:80".to_vec()]
    );
}

#[test]
fn empty_spec_is_one_empty_token() {
    assert_eq!(bind_tokens(b""), vec![Vec::<u8>::new()]);
    assert_eq!(bind_tokens(b"a,,b"), vec![b"a".to_vec(), Vec::new(), b"b".to_vec()]);
    assert_eq!(bind_tokens(b","), vec![Vec::<u8>::new(), Vec::new()]);
}

#[test]
fn trim_removes_ascii_whitespace_only_at_the_ends() {
    assert_eq!(trim_bytes(b" \r\n a b \x0b\x0c"), b"a b".to_vec());
    assert_eq!(trim_bytes(b"   "), Vec::<u8>::new());
    assert_eq!(trim_bytes(b"x"), b"x".to_vec());
}

#[test]
fn default_list_is_dual_stack_on_the_rendezvous_port() {
    let d = default_bind_addresses(RENDEZVOUS_PORT);
    assert_eq!(d.len(), 2);
    assert_eq!(d[0], BindAddress { ip: IpAddress::V4(0), port: 21116 });
    assert_eq!(d[1], BindAddress { ip: IpAddress::V6 { bits: 0, scope_id: 0 }, port: 21116 });
    assert_eq!(d[0].stack(), Stack::V4);
    assert_eq!(d[1].stack(), Stack::V6);
}

#[test]
fn resolution_keeps_one_address_per_token_in_order() {
    let tokens = bind_tokens(b"10.0.0.1:1000, 10.0.0.2:2000,10.0.0.3:3000");
    let parsed = vec![
        Ok(v4(10, 0, 0, 1, 1000)),
        Ok(v4(10, 0, 0, 2, 2000)),
        Ok(v4(10, 0, 0, 3, 3000)),
    ];
    let r = resolve_bind_addresses(&tokens, &parsed, 9).unwrap();
    assert_eq!(r, vec![v4(10, 0, 0, 1, 1000), v4(10, 0, 0, 2, 2000), v4(10, 0, 0, 3, 3000)]);
}

#[test]
fn resolution_names_the_first_bad_token() {
    let tokens = bind_tokens(b"10.0.0.1:1000, nonsense ,also-bad");
    let parsed = vec![
        Ok(v4(10, 0, 0, 1, 1000)),
        Err("invalid socket address syntax".to_string()),
        Err("other".to_string()),
    ];
    let r = resolve_bind_addresses(&tokens, &parsed, 9);
    assert_eq!(
        r,
        Err(AddressError::InvalidAddress {
            index: 1,
            token: b"nonsense".to_vec(),
            cause: "invalid socket address syntax".to_string(),
        })
    );
}

#[test]
fn legacy_port_is_used_only_when_nothing_was_given() {
    let tokens: Vec<Vec<u8>> = Vec::new();
    let parsed: Vec<Result<BindAddress, String>> = Vec::new();
    let r = resolve_bind_addresses(&tokens, &parsed, 4242).unwrap();
    assert_eq!(r, vec![BindAddress::any_v4(4242)]);
    let tokens = bind_tokens(b"[::1]:7");
    let parsed = vec![Ok(BindAddress { ip: IpAddress::V6 { bits: 1, scope_id: 0 }, port: 7 })];
    let r = resolve_bind_addresses(&tokens, &parsed, 4242).unwrap();
    assert_eq!(r, vec![BindAddress { ip: IpAddress::V6 { bits: 1, scope_id: 0 }, port: 7 }]);
}
