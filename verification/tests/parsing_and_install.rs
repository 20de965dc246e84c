use portal_daemon::config::{Language, PortalConfig};
use portal_daemon::install::{
    contains_subslice, doas_config_with_rules, doas_rule, elevation_command, openrc_script,
    sudoers_rule, systemd_unit,
};
use portal_daemon::locales::Locales;
use portal_daemon::netscan::{
    find_gateway, parse_active_connections, parse_connection_line, parse_gateway_line,
    split_lines_exec,
};

#[test]
fn default_config_values() {
    let cfg = PortalConfig::default();
    assert!(matches!(cfg.language, Language::En));
    assert_eq!(cfg.lighthouse_ip.as_str(), "192.168.1.1");
    assert_eq!(cfg.target_ssid.as_str(), "Unknown");
    assert_eq!(cfg.sleep_minutes, 60);
    assert_eq!(cfg.grace_period_sec, 300);
    assert_eq!(cfg.wakeup_wait_sec, 30);
    assert_eq!(cfg.scan_interval_sec, 60);
    assert!(cfg.validate());
    assert_eq!(cfg.suspend_seconds(), 3600);
}

#[test]
fn validate_rejects_unusable_configs() {
    let mut cfg = PortalConfig::default();
    cfg.lighthouse_ip = String::new();
    assert!(!cfg.validate());
    let mut cfg = PortalConfig::default();
    cfg.scan_interval_sec = 0;
    assert!(!cfg.validate());
    let mut cfg = PortalConfig::default();
    cfg.sleep_minutes = 0;
    assert!(!cfg.validate());
    let mut cfg = PortalConfig::default();
    cfg.sleep_minutes = u64::MAX;
    assert!(!cfg.validate());
}

#[test]
fn locale_tables_differ_by_language() {
    let en = Locales::new(Language::En);
    assert_eq!(en.daemon_start.as_str(), "👻 Portal Daemon: START");
    assert_eq!(en.conn_restored.as_str(), "✅ Connection restored.");
    assert_eq!(en.pause_prompt.as_str(), "Pause for how many MINUTES?");
    let ru = Locales::new(Language::Ru);
    assert_eq!(ru.daemon_start.as_str(), "👻 Portal Daemon: ЗАПУСК");
    assert_eq!(ru.conn_restored.as_str(), "✅ Связь вернулась.");
    assert_eq!(ru.pause_prompt.as_str(), "На сколько МИНУТ?");
}

#[test]
fn split_lines_keeps_every_field() {
    let lines = split_lines_exec(b"a\nbb\n\nccc");
    let views: Vec<&[u8]> = lines.iter().map(|l| l.as_slice()).collect();
    assert_eq!(views, vec![b"a" as &[u8], b"bb", b"", b"ccc"]);
    let lines = split_lines_exec(b"");
    assert_eq!(lines.len(), 1);
    assert!(lines[0].is_empty());
}

#[test]
fn connection_line_fields() {
    assert_eq!(
        parse_connection_line(b"Home WiFi:wlan0"),
        Some((b"Home WiFi".to_vec(), b"wlan0".to_vec()))
    );
    // Anything after a second colon is ignored.
    assert_eq!(
        parse_connection_line(b"Work:eth1:extra"),
        Some((b"Work".to_vec(), b"eth1".to_vec()))
    );
    // The loopback device, empty names and colon-less lines contribute
    // nothing.
    assert_eq!(parse_connection_line(b"lo:lo"), None);
    assert_eq!(parse_connection_line(b":eth0"), None);
    assert_eq!(parse_connection_line(b"no separator"), None);
    assert_eq!(parse_connection_line(b""), None);
}

#[test]
fn active_connection_listing() {
    let out = b"Home WiFi:wlan0\nlo:lo\n:eth0\nWork:eth1:extra\n";
    let conns = parse_active_connections(out);
    let views: Vec<(&[u8], &[u8])> =
        conns.iter().map(|c| (c.0.as_slice(), c.1.as_slice())).collect();
    assert_eq!(
        views,
        vec![(b"Home WiFi" as &[u8], b"wlan0" as &[u8]), (b"Work" as &[u8], b"eth1" as &[u8])]
    );
}

#[test]
fn gateway_line_fields() {
    assert_eq!(parse_gateway_line(b"IP4.GATEWAY:192.168.1.1"), Some(b"192.168.1.1".to_vec()));
    assert_eq!(parse_gateway_line(b"IP4.GATEWAY:10.0.0.1\r"), Some(b"10.0.0.1".to_vec()));
    assert_eq!(parse_gateway_line(b"IP4.GATEWAY:--"), None);
    assert_eq!(parse_gateway_line(b"IP4.GATEWAY:"), None);
    assert_eq!(parse_gateway_line(b"IP6.GATEWAY:fe80::1"), None);
    assert_eq!(parse_gateway_line(b"GENERAL.DEVICE:wlan0"), None);
}

#[test]
fn gateway_of_device_listing() {
    let out = b"GENERAL.DEVICE:wlan0\nIP4.ADDRESS[1]:192.168.1.5/24\nIP4.GATEWAY:192.168.1.1\nIP6.GATEWAY:--\n";
    assert_eq!(find_gateway(out), Some(b"192.168.1.1".to_vec()));
    assert_eq!(find_gateway(b"GENERAL.DEVICE:eth0\nIP4.GATEWAY:--\n"), None);
    assert_eq!(find_gateway(b""), None);
}

#[test]
fn elevation_prefix_follows_doas_conf() {
    assert_eq!(elevation_command(true), "doas");
    assert_eq!(elevation_command(false), "sudo");
}

#[test]
fn service_file_contents() {
    let unit = systemd_unit("/usr/local/bin/portal_daemon");
    assert_eq!(
        unit,
        "[Unit]\nDescription=Portal Daemon (Network Sleep Manager)\nAfter=network.target\n\n\
         [Service]\nExecStart=/usr/local/bin/portal_daemon\nRestart=always\nUser=root\n\
         Group=root\n\n[Install]\nWantedBy=multi-user.target\n"
    );
    let script = openrc_script("/usr/local/bin/portal_daemon");
    assert_eq!(
        script,
        "#!/sbin/openrc-run\n\nname=\"portal\"\ndescription=\"Portal Daemon\"\n\
         command=\"/usr/local/bin/portal_daemon\"\ncommand_background=true\n\
         pidfile=\"/run/portal.pid\"\n\ndepend() {\n    need net\n}\n"
    );
}

#[test]
fn privilege_rule_lines() {
    assert_eq!(
        sudoers_rule("portal-admins", "/usr/sbin/rtcwake", "/usr/bin/nmcli"),
        "%portal-admins ALL=(root) NOPASSWD: /usr/sbin/rtcwake, /usr/bin/nmcli\n"
    );
    assert_eq!(
        doas_rule("portal-admins", "/usr/sbin/rtcwake"),
        "permit nopass :portal-admins cmd /usr/sbin/rtcwake"
    );
}

#[test]
fn substring_search() {
    assert!(contains_subslice(b"hello world", b"lo wo"));
    assert!(contains_subslice(b"abc", b""));
    assert!(contains_subslice(b"abc", b"abc"));
    assert!(!contains_subslice(b"abc", b"abcd"));
    assert!(!contains_subslice(b"hello", b"worl"));
}

#[test]
fn doas_rules_appended_only_when_missing() {
    let r1 = b"permit nopass :portal-admins cmd /usr/sbin/rtcwake";
    let r2 = b"permit nopass :portal-admins cmd /usr/bin/nmcli";
    // Neither rule present: both appended, the first after a separating
    // newline.
    let out = doas_config_with_rules(b"permit persist :wheel", r1, r2);
    assert_eq!(
        out,
        b"permit persist :wheel\npermit nopass :portal-admins cmd /usr/sbin/rtcwake\n\
          permit nopass :portal-admins cmd /usr/bin/nmcli\n"
            .to_vec()
    );
    // First rule already present: only the second is appended.
    let existing =
        b"permit persist :wheel\npermit nopass :portal-admins cmd /usr/sbin/rtcwake\n".to_vec();
    let out = doas_config_with_rules(&existing, r1, r2);
    assert_eq!(
        out,
        b"permit persist :wheel\npermit nopass :portal-admins cmd /usr/sbin/rtcwake\n\
          permit nopass :portal-admins cmd /usr/bin/nmcli\n"
            .to_vec()
    );
    // Both present: the content is left exactly as it was.
    let again = doas_config_with_rules(&out, r1, r2);
    assert_eq!(again, out);
}
