use bgpspeaker::config::Config;
use bgpspeaker::config::ConfigError;
use bgpspeaker::config::IpV4Addr;
use bgpspeaker::config::Mode;

#[test]
fn config_parses_an_active_line() {
    let c = Config::parse("64512 127.0.0.1 65413 127.0.0.2 active").unwrap();
    assert_eq!(c.local_as, 64512);
    assert_eq!(c.local_addr, IpV4Addr { o0: 127, o1: 0, o2: 0, o3: 1 });
    assert_eq!(c.peer_as, 65413);
    assert_eq!(c.peer_addr, IpV4Addr { o0: 127, o1: 0, o2: 0, o3: 2 });
    assert_eq!(c.mode, Mode::Active);
}

#[test]
fn config_parses_a_passive_line_with_extra_whitespace() {
    let c = Config::parse("  1 0.0.0.0   2 255.255.255.255  passive ").unwrap();
    assert_eq!(c.local_as, 1);
    assert_eq!(c.local_addr, IpV4Addr { o0: 0, o1: 0, o2: 0, o3: 0 });
    assert_eq!(c.peer_as, 2);
    assert_eq!(c.peer_addr, IpV4Addr { o0: 255, o1: 255, o2: 255, o3: 255 });
    assert_eq!(c.mode, Mode::Passive);
}

#[test]
fn config_rejects_a_malformed_address() {
    let r = Config::parse("64512 not-an-ip 65413 127.0.0.2 active");
    assert_eq!(r, Err(ConfigError::Address));
}

#[test]
fn config_rejects_out_of_range_and_short_addresses() {
    assert_eq!(
        Config::parse("64512 127.0.0.256 65413 127.0.0.2 active"),
        Err(ConfigError::Address)
    );
    assert_eq!(
        Config::parse("64512 127.0.1 65413 127.0.0.2 active"),
        Err(ConfigError::Address)
    );
    assert_eq!(
        Config::parse("64512 127.0.0.1 65413 127..0.2 active"),
        Err(ConfigError::Address)
    );
}

#[test]
fn config_rejects_an_unknown_mode() {
    assert_eq!(
        Config::parse("64512 127.0.0.1 65413 127.0.0.2 sometimes"),
        Err(ConfigError::SessionMode)
    );
    assert_eq!(
        Config::parse("64512 127.0.0.1 65413 127.0.0.2 Active"),
        Err(ConfigError::SessionMode)
    );
}

#[test]
fn config_rejects_a_bad_as_number() {
    assert_eq!(
        Config::parse("banana 127.0.0.1 65413 127.0.0.2 active"),
        Err(ConfigError::AsNumber)
    );
    assert_eq!(
        Config::parse("65536 127.0.0.1 65413 127.0.0.2 active"),
        Err(ConfigError::AsNumber)
    );
    assert_eq!(
        Config::parse("64512 127.0.0.1 9999999999 127.0.0.2 active"),
        Err(ConfigError::AsNumber)
    );
}

#[test]
fn config_rejects_a_wrong_field_count() {
    assert_eq!(
        Config::parse("64512 127.0.0.1 65413 127.0.0.2"),
        Err(ConfigError::FieldCount)
    );
    assert_eq!(
        Config::parse("64512 127.0.0.1 65413 127.0.0.2 active extra"),
        Err(ConfigError::FieldCount)
    );
    assert_eq!(Config::parse(""), Err(ConfigError::FieldCount));
    assert_eq!(Config::parse("   "), Err(ConfigError::FieldCount));
}

#[test]
fn config_accepts_boundary_values() {
    let c = Config::parse("0 0.0.0.0 65535 1.2.3.4 active").unwrap();
    assert_eq!(c.local_as, 0);
    assert_eq!(c.peer_as, 65535);
    assert_eq!(c.peer_addr, IpV4Addr { o0: 1, o1: 2, o2: 3, o3: 4 });
}
