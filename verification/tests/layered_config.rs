use snippets_app::layered_config::{config_defaults, debug_override, DefaultValue};

#[test]
fn defaults_cover_every_setting_in_order() {
    let d = config_defaults();
    let keys: Vec<&str> = d.iter().map(|(k, _)| k.as_str()).collect();
    assert_eq!(
        keys,
        vec![
            "mode.debug",
            "server.external_url",
            "server.http_port",
            "server.grpc_port",
            "server.healthz_port",
            "server.metrics_port",
            "db.mysql.host",
            "db.mysql.port",
            "db.mysql.dating",
            "db.mysql.user",
            "db.mysql.pass",
            "db.mysql.connections.max_idle",
            "db.mysql.connections.max_open",
            "log.app.level",
            "background.watchdog.period",
            "background.watchdog.limit",
            "background.watchdog.lock_timeout",
        ]
    );
    assert!(matches!(d[0].1, DefaultValue::Flag(false)));
    assert!(matches!(d[2].1, DefaultValue::Number(8081)));
    assert!(matches!(d[7].1, DefaultValue::Number(3306)));
    match &d[1].1 {
        DefaultValue::Text(t) => assert_eq!(t, "http://127.0.0.1"),
        other => panic!("unexpected {:?}", other),
    }
    match &d[10].1 {
        DefaultValue::Text(t) => assert_eq!(t, ""),
        other => panic!("unexpected {:?}", other),
    }
    match &d[16].1 {
        DefaultValue::Text(t) => assert_eq!(t, "4s"),
        other => panic!("unexpected {:?}", other),
    }
}

#[test]
fn debug_flag_overrides_mode() {
    assert_eq!(debug_override(true), Some(("mode.debug".to_string(), true)));
    assert_eq!(debug_override(false), None);
}
