//! The rules of the layered configuration of the `task_3_9` tool: the value
//! each setting has when neither the file nor the environment gives one, and
//! the override that the `--debug` flag puts above every source.

use vstd::prelude::*;

verus! {

/// The default value of one setting.
#[derive(Debug)]
pub enum DefaultValue {
    Flag(bool),
    Number(i64),
    Text(String),
}

/// A default value as plain data.
pub enum DefaultView {
    Flag(bool),
    Number(int),
    Text(Seq<char>),
}

impl DefaultValue {
    pub open spec fn as_view(&self) -> DefaultView {
        match self {
            DefaultValue::Flag(b) => DefaultView::Flag(*b),
            DefaultValue::Number(n) => DefaultView::Number(*n as int),
            DefaultValue::Text(t) => DefaultView::Text(t@),
        }
    }
}

/// The defaults, setting by setting, in the order in which they are set.
pub open spec fn default_table() -> Seq<(Seq<char>, DefaultView)> {
    seq![
        ("mode.debug"@, DefaultView::Flag(false)),
        ("server.external_url"@, DefaultView::Text("http://127.0.0.1"@)),
        ("server.http_port"@, DefaultView::Number(8081)),
        ("server.grpc_port"@, DefaultView::Number(8082)),
        ("server.healthz_port"@, DefaultView::Number(10025)),
        ("server.metrics_port"@, DefaultView::Number(9199)),
        ("db.mysql.host"@, DefaultView::Text("127.0.0.1"@)),
        ("db.mysql.port"@, DefaultView::Number(3306)),
        ("db.mysql.dating"@, DefaultView::Text("default"@)),
        ("db.mysql.user"@, DefaultView::Text("root"@)),
        ("db.mysql.pass"@, DefaultView::Text(""@)),
        ("db.mysql.connections.max_idle"@, DefaultView::Number(30)),
        ("db.mysql.connections.max_open"@, DefaultView::Number(30)),
        ("log.app.level"@, DefaultView::Text("info"@)),
        ("background.watchdog.period"@, DefaultView::Text("5s"@)),
        ("background.watchdog.limit"@, DefaultView::Number(10)),
        ("background.watchdog.lock_timeout"@, DefaultView::Text("4s"@)),
    ]
}

/// The value of the first entry keyed `key` at or after index `from` in a
/// table of defaults.
pub open spec fn value_for_key_from(
    table: Seq<(Seq<char>, DefaultView)>,
    key: Seq<char>,
    from: int,
) -> Option<DefaultView>
    decreases table.len() - from,
{
    if from < 0 || from >= table.len() {
        None
    } else if table[from].0 == key {
        Some(table[from].1)
    } else {
        value_for_key_from(table, key, from + 1)
    }
}

/// The value of the first entry keyed `key` in a table of defaults.
pub open spec fn value_for_key(table: Seq<(Seq<char>, DefaultView)>, key: Seq<char>) -> Option<
    DefaultView,
> {
    value_for_key_from(table, key, 0)
}

/// The defaults of the tool, setting by setting: debug off; the server at
/// `http://127.0.0.1` with ports 8081 (HTTP), 8082 (gRPC), 10025 (health)
/// and 9199 (metrics); MySQL at `127.0.0.1:3306`, database `default`, user
/// `root` with an empty password, at most 30 idle and 30 open connections;
/// log level `info`; the watchdog every `5s`, limit 10, lock timeout `4s`.
/// There are exactly these 17 settings.
pub proof fn lemma_defaults_by_key()
    ensures
        default_table().len() == 17,
        value_for_key(default_table(), "mode.debug"@) == Some(DefaultView::Flag(false)),
        value_for_key(default_table(), "server.external_url"@) == Some(
            DefaultView::Text("http://127.0.0.1"@),
        ),
        value_for_key(default_table(), "server.http_port"@) == Some(DefaultView::Number(8081)),
        value_for_key(default_table(), "server.grpc_port"@) == Some(DefaultView::Number(8082)),
        value_for_key(default_table(), "server.healthz_port"@) == Some(DefaultView::Number(10025)),
        value_for_key(default_table(), "server.metrics_port"@) == Some(DefaultView::Number(9199)),
        value_for_key(default_table(), "db.mysql.host"@) == Some(DefaultView::Text("127.0.0.1"@)),
        value_for_key(default_table(), "db.mysql.port"@) == Some(DefaultView::Number(3306)),
        value_for_key(default_table(), "db.mysql.dating"@) == Some(DefaultView::Text("default"@)),
        value_for_key(default_table(), "db.mysql.user"@) == Some(DefaultView::Text("root"@)),
        value_for_key(default_table(), "db.mysql.pass"@) == Some(DefaultView::Text(""@)),
        value_for_key(default_table(), "db.mysql.connections.max_idle"@) == Some(
            DefaultView::Number(30),
        ),
        value_for_key(default_table(), "db.mysql.connections.max_open"@) == Some(
            DefaultView::Number(30),
        ),
        value_for_key(default_table(), "log.app.level"@) == Some(DefaultView::Text("info"@)),
        value_for_key(default_table(), "background.watchdog.period"@) == Some(
            DefaultView::Text("5s"@),
        ),
        value_for_key(default_table(), "background.watchdog.limit"@) == Some(
            DefaultView::Number(10),
        ),
        value_for_key(default_table(), "background.watchdog.lock_timeout"@) == Some(
            DefaultView::Text("4s"@),
        ),
{
    reveal_strlit("mode.debug");
    reveal_strlit("server.external_url");
    reveal_strlit("server.http_port");
    reveal_strlit("server.grpc_port");
    reveal_strlit("server.healthz_port");
    reveal_strlit("server.metrics_port");
    reveal_strlit("db.mysql.host");
    reveal_strlit("db.mysql.port");
    reveal_strlit("db.mysql.dating");
    reveal_strlit("db.mysql.user");
    reveal_strlit("db.mysql.pass");
    reveal_strlit("db.mysql.connections.max_idle");
    reveal_strlit("db.mysql.connections.max_open");
    reveal_strlit("log.app.level");
    reveal_strlit("background.watchdog.period");
    reveal_strlit("background.watchdog.limit");
    reveal_strlit("background.watchdog.lock_timeout");
    let t = default_table();
    assert(t[0].0 == "mode.debug"@ && "mode.debug"@.len() == 10);
    assert(t[1].0 == "server.external_url"@ && "server.external_url"@.len() == 19);
    assert(t[2].0 == "server.http_port"@ && "server.http_port"@.len() == 16);
    assert(t[3].0 == "server.grpc_port"@ && "server.grpc_port"@.len() == 16);
    assert(t[4].0 == "server.healthz_port"@ && "server.healthz_port"@.len() == 19);
    assert(t[5].0 == "server.metrics_port"@ && "server.metrics_port"@.len() == 19);
    assert(t[6].0 == "db.mysql.host"@ && "db.mysql.host"@.len() == 13);
    assert(t[7].0 == "db.mysql.port"@ && "db.mysql.port"@.len() == 13);
    assert(t[8].0 == "db.mysql.dating"@ && "db.mysql.dating"@.len() == 15);
    assert(t[9].0 == "db.mysql.user"@ && "db.mysql.user"@.len() == 13);
    assert(t[10].0 == "db.mysql.pass"@ && "db.mysql.pass"@.len() == 13);
    assert(t[11].0 == "db.mysql.connections.max_idle"@ && "db.mysql.connections.max_idle"@.len() == 29);
    assert(t[12].0 == "db.mysql.connections.max_open"@ && "db.mysql.connections.max_open"@.len() == 29);
    assert(t[13].0 == "log.app.level"@ && "log.app.level"@.len() == 13);
    assert(t[14].0 == "background.watchdog.period"@ && "background.watchdog.period"@.len() == 26);
    assert(t[15].0 == "background.watchdog.limit"@ && "background.watchdog.limit"@.len() == 25);
    assert(t[16].0 == "background.watchdog.lock_timeout"@ && "background.watchdog.lock_timeout"@.len() == 32);
    assert(value_for_key_from(t, "mode.debug"@, 0) == Some(t[0].1)) by {
        assert(value_for_key_from(t, "mode.debug"@, 0) == Some(t[0].1));
    }
    assert(value_for_key_from(t, "server.external_url"@, 0) == Some(t[1].1)) by {
        assert(value_for_key_from(t, "server.external_url"@, 1) == Some(t[1].1));
        assert(t[0].0 != "server.external_url"@);
        assert(value_for_key_from(t, "server.external_url"@, 0) == Some(t[1].1));
    }
    assert(value_for_key_from(t, "server.http_port"@, 0) == Some(t[2].1)) by {
        assert(value_for_key_from(t, "server.http_port"@, 2) == Some(t[2].1));
        assert(t[1].0 != "server.http_port"@);
        assert(value_for_key_from(t, "server.http_port"@, 1) == Some(t[2].1));
        assert(t[0].0 != "server.http_port"@);
        assert(value_for_key_from(t, "server.http_port"@, 0) == Some(t[2].1));
    }
    assert(value_for_key_from(t, "server.grpc_port"@, 0) == Some(t[3].1)) by {
        assert(value_for_key_from(t, "server.grpc_port"@, 3) == Some(t[3].1));
        assert(t[2].0 != "server.grpc_port"@) by {
            assert("server.http_port"@[7] != "server.grpc_port"@[7]);
        }
        assert(value_for_key_from(t, "server.grpc_port"@, 2) == Some(t[3].1));
        assert(t[1].0 != "server.grpc_port"@);
        assert(value_for_key_from(t, "server.grpc_port"@, 1) == Some(t[3].1));
        assert(t[0].0 != "server.grpc_port"@);
        assert(value_for_key_from(t, "server.grpc_port"@, 0) == Some(t[3].1));
    }
    assert(value_for_key_from(t, "server.healthz_port"@, 0) == Some(t[4].1)) by {
        assert(value_for_key_from(t, "server.healthz_port"@, 4) == Some(t[4].1));
        assert(t[3].0 != "server.healthz_port"@);
        assert(value_for_key_from(t, "server.healthz_port"@, 3) == Some(t[4].1));
        assert(t[2].0 != "server.healthz_port"@);
        assert(value_for_key_from(t, "server.healthz_port"@, 2) == Some(t[4].1));
        assert(t[1].0 != "server.healthz_port"@) by {
            assert("server.external_url"@[7] != "server.healthz_port"@[7]);
        }
        assert(value_for_key_from(t, "server.healthz_port"@, 1) == Some(t[4].1));
        assert(t[0].0 != "server.healthz_port"@);
        assert(value_for_key_from(t, "server.healthz_port"@, 0) == Some(t[4].1));
    }
    assert(value_for_key_from(t, "server.metrics_port"@, 0) == Some(t[5].1)) by {
        assert(value_for_key_from(t, "server.metrics_port"@, 5) == Some(t[5].1));
        assert(t[4].0 != "server.metrics_port"@) by {
            assert("server.healthz_port"@[7] != "server.metrics_port"@[7]);
        }
        assert(value_for_key_from(t, "server.metrics_port"@, 4) == Some(t[5].1));
        assert(t[3].0 != "server.metrics_port"@);
        assert(value_for_key_from(t, "server.metrics_port"@, 3) == Some(t[5].1));
        assert(t[2].0 != "server.metrics_port"@);
        assert(value_for_key_from(t, "server.metrics_port"@, 2) == Some(t[5].1));
        assert(t[1].0 != "server.metrics_port"@) by {
            assert("server.external_url"@[7] != "server.metrics_port"@[7]);
        }
        assert(value_for_key_from(t, "server.metrics_port"@, 1) == Some(t[5].1));
        assert(t[0].0 != "server.metrics_port"@);
        assert(value_for_key_from(t, "server.metrics_port"@, 0) == Some(t[5].1));
    }
    assert(value_for_key_from(t, "db.mysql.host"@, 0) == Some(t[6].1)) by {
        assert(value_for_key_from(t, "db.mysql.host"@, 6) == Some(t[6].1));
        assert(t[5].0 != "db.mysql.host"@);
        assert(value_for_key_from(t, "db.mysql.host"@, 5) == Some(t[6].1));
        assert(t[4].0 != "db.mysql.host"@);
        assert(value_for_key_from(t, "db.mysql.host"@, 4) == Some(t[6].1));
        assert(t[3].0 != "db.mysql.host"@);
        assert(value_for_key_from(t, "db.mysql.host"@, 3) == Some(t[6].1));
        assert(t[2].0 != "db.mysql.host"@);
        assert(value_for_key_from(t, "db.mysql.host"@, 2) == Some(t[6].1));
        assert(t[1].0 != "db.mysql.host"@);
        assert(value_for_key_from(t, "db.mysql.host"@, 1) == Some(t[6].1));
        assert(t[0].0 != "db.mysql.host"@);
        assert(value_for_key_from(t, "db.mysql.host"@, 0) == Some(t[6].1));
    }
    assert(value_for_key_from(t, "db.mysql.port"@, 0) == Some(t[7].1)) by {
        assert(value_for_key_from(t, "db.mysql.port"@, 7) == Some(t[7].1));
        assert(t[6].0 != "db.mysql.port"@) by {
            assert("db.mysql.host"@[9] != "db.mysql.port"@[9]);
        }
        assert(value_for_key_from(t, "db.mysql.port"@, 6) == Some(t[7].1));
        assert(t[5].0 != "db.mysql.port"@);
        assert(value_for_key_from(t, "db.mysql.port"@, 5) == Some(t[7].1));
        assert(t[4].0 != "db.mysql.port"@);
        assert(value_for_key_from(t, "db.mysql.port"@, 4) == Some(t[7].1));
        assert(t[3].0 != "db.mysql.port"@);
        assert(value_for_key_from(t, "db.mysql.port"@, 3) == Some(t[7].1));
        assert(t[2].0 != "db.mysql.port"@);
        assert(value_for_key_from(t, "db.mysql.port"@, 2) == Some(t[7].1));
        assert(t[1].0 != "db.mysql.port"@);
        assert(value_for_key_from(t, "db.mysql.port"@, 1) == Some(t[7].1));
        assert(t[0].0 != "db.mysql.port"@);
        assert(value_for_key_from(t, "db.mysql.port"@, 0) == Some(t[7].1));
    }
    assert(value_for_key_from(t, "db.mysql.dating"@, 0) == Some(t[8].1)) by {
        assert(value_for_key_from(t, "db.mysql.dating"@, 8) == Some(t[8].1));
        assert(t[7].0 != "db.mysql.dating"@);
        assert(value_for_key_from(t, "db.mysql.dating"@, 7) == Some(t[8].1));
        assert(t[6].0 != "db.mysql.dating"@);
        assert(value_for_key_from(t, "db.mysql.dating"@, 6) == Some(t[8].1));
        assert(t[5].0 != "db.mysql.dating"@);
        assert(value_for_key_from(t, "db.mysql.dating"@, 5) == Some(t[8].1));
        assert(t[4].0 != "db.mysql.dating"@);
        assert(value_for_key_from(t, "db.mysql.dating"@, 4) == Some(t[8].1));
        assert(t[3].0 != "db.mysql.dating"@);
        assert(value_for_key_from(t, "db.mysql.dating"@, 3) == Some(t[8].1));
        assert(t[2].0 != "db.mysql.dating"@);
        assert(value_for_key_from(t, "db.mysql.dating"@, 2) == Some(t[8].1));
        assert(t[1].0 != "db.mysql.dating"@);
        assert(value_for_key_from(t, "db.mysql.dating"@, 1) == Some(t[8].1));
        assert(t[0].0 != "db.mysql.dating"@);
        assert(value_for_key_from(t, "db.mysql.dating"@, 0) == Some(t[8].1));
    }
    assert(value_for_key_from(t, "db.mysql.user"@, 0) == Some(t[9].1)) by {
        assert(value_for_key_from(t, "db.mysql.user"@, 9) == Some(t[9].1));
        assert(t[8].0 != "db.mysql.user"@);
        assert(value_for_key_from(t, "db.mysql.user"@, 8) == Some(t[9].1));
        assert(t[7].0 != "db.mysql.user"@) by {
            assert("db.mysql.port"@[9] != "db.mysql.user"@[9]);
        }
        assert(value_for_key_from(t, "db.mysql.user"@, 7) == Some(t[9].1));
        assert(t[6].0 != "db.mysql.user"@) by {
            assert("db.mysql.host"@[9] != "db.mysql.user"@[9]);
        }
        assert(value_for_key_from(t, "db.mysql.user"@, 6) == Some(t[9].1));
        assert(t[5].0 != "db.mysql.user"@);
        assert(value_for_key_from(t, "db.mysql.user"@, 5) == Some(t[9].1));
        assert(t[4].0 != "db.mysql.user"@);
        assert(value_for_key_from(t, "db.mysql.user"@, 4) == Some(t[9].1));
        assert(t[3].0 != "db.mysql.user"@);
        assert(value_for_key_from(t, "db.mysql.user"@, 3) == Some(t[9].1));
        assert(t[2].0 != "db.mysql.user"@);
        assert(value_for_key_from(t, "db.mysql.user"@, 2) == Some(t[9].1));
        assert(t[1].0 != "db.mysql.user"@);
        assert(value_for_key_from(t, "db.mysql.user"@, 1) == Some(t[9].1));
        assert(t[0].0 != "db.mysql.user"@);
        assert(value_for_key_from(t, "db.mysql.user"@, 0) == Some(t[9].1));
    }
    assert(value_for_key_from(t, "db.mysql.pass"@, 0) == Some(t[10].1)) by {
        assert(value_for_key_from(t, "db.mysql.pass"@, 10) == Some(t[10].1));
        assert(t[9].0 != "db.mysql.pass"@) by {
            assert("db.mysql.user"@[9] != "db.mysql.pass"@[9]);
        }
        assert(value_for_key_from(t, "db.mysql.pass"@, 9) == Some(t[10].1));
        assert(t[8].0 != "db.mysql.pass"@);
        assert(value_for_key_from(t, "db.mysql.pass"@, 8) == Some(t[10].1));
        assert(t[7].0 != "db.mysql.pass"@) by {
            assert("db.mysql.port"@[10] != "db.mysql.pass"@[10]);
        }
        assert(value_for_key_from(t, "db.mysql.pass"@, 7) == Some(t[10].1));
        assert(t[6].0 != "db.mysql.pass"@) by {
            assert("db.mysql.host"@[9] != "db.mysql.pass"@[9]);
        }
        assert(value_for_key_from(t, "db.mysql.pass"@, 6) == Some(t[10].1));
        assert(t[5].0 != "db.mysql.pass"@);
        assert(value_for_key_from(t, "db.mysql.pass"@, 5) == Some(t[10].1));
        assert(t[4].0 != "db.mysql.pass"@);
        assert(value_for_key_from(t, "db.mysql.pass"@, 4) == Some(t[10].1));
        assert(t[3].0 != "db.mysql.pass"@);
        assert(value_for_key_from(t, "db.mysql.pass"@, 3) == Some(t[10].1));
        assert(t[2].0 != "db.mysql.pass"@);
        assert(value_for_key_from(t, "db.mysql.pass"@, 2) == Some(t[10].1));
        assert(t[1].0 != "db.mysql.pass"@);
        assert(value_for_key_from(t, "db.mysql.pass"@, 1) == Some(t[10].1));
        assert(t[0].0 != "db.mysql.pass"@);
        assert(value_for_key_from(t, "db.mysql.pass"@, 0) == Some(t[10].1));
    }
    assert(value_for_key_from(t, "db.mysql.connections.max_idle"@, 0) == Some(t[11].1)) by {
        assert(value_for_key_from(t, "db.mysql.connections.max_idle"@, 11) == Some(t[11].1));
        assert(t[10].0 != "db.mysql.connections.max_idle"@);
        assert(value_for_key_from(t, "db.mysql.connections.max_idle"@, 10) == Some(t[11].1));
        assert(t[9].0 != "db.mysql.connections.max_idle"@);
        assert(value_for_key_from(t, "db.mysql.connections.max_idle"@, 9) == Some(t[11].1));
        assert(t[8].0 != "db.mysql.connections.max_idle"@);
        assert(value_for_key_from(t, "db.mysql.connections.max_idle"@, 8) == Some(t[11].1));
        assert(t[7].0 != "db.mysql.connections.max_idle"@);
        assert(value_for_key_from(t, "db.mysql.connections.max_idle"@, 7) == Some(t[11].1));
        assert(t[6].0 != "db.mysql.connections.max_idle"@);
        assert(value_for_key_from(t, "db.mysql.connections.max_idle"@, 6) == Some(t[11].1));
        assert(t[5].0 != "db.mysql.connections.max_idle"@);
        assert(value_for_key_from(t, "db.mysql.connections.max_idle"@, 5) == Some(t[11].1));
        assert(t[4].0 != "db.mysql.connections.max_idle"@);
        assert(value_for_key_from(t, "db.mysql.connections.max_idle"@, 4) == Some(t[11].1));
        assert(t[3].0 != "db.mysql.connections.max_idle"@);
        assert(value_for_key_from(t, "db.mysql.connections.max_idle"@, 3) == Some(t[11].1));
        assert(t[2].0 != "db.mysql.connections.max_idle"@);
        assert(value_for_key_from(t, "db.mysql.connections.max_idle"@, 2) == Some(t[11].1));
        assert(t[1].0 != "db.mysql.connections.max_idle"@);
        assert(value_for_key_from(t, "db.mysql.connections.max_idle"@, 1) == Some(t[11].1));
        assert(t[0].0 != "db.mysql.connections.max_idle"@);
        assert(value_for_key_from(t, "db.mysql.connections.max_idle"@, 0) == Some(t[11].1));
    }
    assert(value_for_key_from(t, "db.mysql.connections.max_open"@, 0) == Some(t[12].1)) by {
        assert(value_for_key_from(t, "db.mysql.connections.max_open"@, 12) == Some(t[12].1));
        assert(t[11].0 != "db.mysql.connections.max_open"@) by {
            assert("db.mysql.connections.max_idle"@[25] != "db.mysql.connections.max_open"@[25]);
        }
        assert(value_for_key_from(t, "db.mysql.connections.max_open"@, 11) == Some(t[12].1));
        assert(t[10].0 != "db.mysql.connections.max_open"@);
        assert(value_for_key_from(t, "db.mysql.connections.max_open"@, 10) == Some(t[12].1));
        assert(t[9].0 != "db.mysql.connections.max_open"@);
        assert(value_for_key_from(t, "db.mysql.connections.max_open"@, 9) == Some(t[12].1));
        assert(t[8].0 != "db.mysql.connections.max_open"@);
        assert(value_for_key_from(t, "db.mysql.connections.max_open"@, 8) == Some(t[12].1));
        assert(t[7].0 != "db.mysql.connections.max_open"@);
        assert(value_for_key_from(t, "db.mysql.connections.max_open"@, 7) == Some(t[12].1));
        assert(t[6].0 != "db.mysql.connections.max_open"@);
        assert(value_for_key_from(t, "db.mysql.connections.max_open"@, 6) == Some(t[12].1));
        assert(t[5].0 != "db.mysql.connections.max_open"@);
        assert(value_for_key_from(t, "db.mysql.connections.max_open"@, 5) == Some(t[12].1));
        assert(t[4].0 != "db.mysql.connections.max_open"@);
        assert(value_for_key_from(t, "db.mysql.connections.max_open"@, 4) == Some(t[12].1));
        assert(t[3].0 != "db.mysql.connections.max_open"@);
        assert(value_for_key_from(t, "db.mysql.connections.max_open"@, 3) == Some(t[12].1));
        assert(t[2].0 != "db.mysql.connections.max_open"@);
        assert(value_for_key_from(t, "db.mysql.connections.max_open"@, 2) == Some(t[12].1));
        assert(t[1].0 != "db.mysql.connections.max_open"@);
        assert(value_for_key_from(t, "db.mysql.connections.max_open"@, 1) == Some(t[12].1));
        assert(t[0].0 != "db.mysql.connections.max_open"@);
        assert(value_for_key_from(t, "db.mysql.connections.max_open"@, 0) == Some(t[12].1));
    }
    assert(value_for_key_from(t, "log.app.level"@, 0) == Some(t[13].1)) by {
        assert(value_for_key_from(t, "log.app.level"@, 13) == Some(t[13].1));
        assert(t[12].0 != "log.app.level"@);
        assert(value_for_key_from(t, "log.app.level"@, 12) == Some(t[13].1));
        assert(t[11].0 != "log.app.level"@);
        assert(value_for_key_from(t, "log.app.level"@, 11) == Some(t[13].1));
        assert(t[10].0 != "log.app.level"@) by {
            assert("db.mysql.pass"@[0] != "log.app.level"@[0]);
        }
        assert(value_for_key_from(t, "log.app.level"@, 10) == Some(t[13].1));
        assert(t[9].0 != "log.app.level"@) by {
            assert("db.mysql.user"@[0] != "log.app.level"@[0]);
        }
        assert(value_for_key_from(t, "log.app.level"@, 9) == Some(t[13].1));
        assert(t[8].0 != "log.app.level"@);
        assert(value_for_key_from(t, "log.app.level"@, 8) == Some(t[13].1));
        assert(t[7].0 != "log.app.level"@) by {
            assert("db.mysql.port"@[0] != "log.app.level"@[0]);
        }
        assert(value_for_key_from(t, "log.app.level"@, 7) == Some(t[13].1));
        assert(t[6].0 != "log.app.level"@) by {
            assert("db.mysql.host"@[0] != "log.app.level"@[0]);
        }
        assert(value_for_key_from(t, "log.app.level"@, 6) == Some(t[13].1));
        assert(t[5].0 != "log.app.level"@);
        assert(value_for_key_from(t, "log.app.level"@, 5) == Some(t[13].1));
        assert(t[4].0 != "log.app.level"@);
        assert(value_for_key_from(t, "log.app.level"@, 4) == Some(t[13].1));
        assert(t[3].0 != "log.app.level"@);
        assert(value_for_key_from(t, "log.app.level"@, 3) == Some(t[13].1));
        assert(t[2].0 != "log.app.level"@);
        assert(value_for_key_from(t, "log.app.level"@, 2) == Some(t[13].1));
        assert(t[1].0 != "log.app.level"@);
        assert(value_for_key_from(t, "log.app.level"@, 1) == Some(t[13].1));
        assert(t[0].0 != "log.app.level"@);
        assert(value_for_key_from(t, "log.app.level"@, 0) == Some(t[13].1));
    }
    assert(value_for_key_from(t, "background.watchdog.period"@, 0) == Some(t[14].1)) by {
        assert(value_for_key_from(t, "background.watchdog.period"@, 14) == Some(t[14].1));
        assert(t[13].0 != "background.watchdog.period"@);
        assert(value_for_key_from(t, "background.watchdog.period"@, 13) == Some(t[14].1));
        assert(t[12].0 != "background.watchdog.period"@);
        assert(value_for_key_from(t, "background.watchdog.period"@, 12) == Some(t[14].1));
        assert(t[11].0 != "background.watchdog.period"@);
        assert(value_for_key_from(t, "background.watchdog.period"@, 11) == Some(t[14].1));
        assert(t[10].0 != "background.watchdog.period"@);
        assert(value_for_key_from(t, "background.watchdog.period"@, 10) == Some(t[14].1));
        assert(t[9].0 != "background.watchdog.period"@);
        assert(value_for_key_from(t, "background.watchdog.period"@, 9) == Some(t[14].1));
        assert(t[8].0 != "background.watchdog.period"@);
        assert(value_for_key_from(t, "background.watchdog.period"@, 8) == Some(t[14].1));
        assert(t[7].0 != "background.watchdog.period"@);
        assert(value_for_key_from(t, "background.watchdog.period"@, 7) == Some(t[14].1));
        assert(t[6].0 != "background.watchdog.period"@);
        assert(value_for_key_from(t, "background.watchdog.period"@, 6) == Some(t[14].1));
        assert(t[5].0 != "background.watchdog.period"@);
        assert(value_for_key_from(t, "background.watchdog.period"@, 5) == Some(t[14].1));
        assert(t[4].0 != "background.watchdog.period"@);
        assert(value_for_key_from(t, "background.watchdog.period"@, 4) == Some(t[14].1));
        assert(t[3].0 != "background.watchdog.period"@);
        assert(value_for_key_from(t, "background.watchdog.period"@, 3) == Some(t[14].1));
        assert(t[2].0 != "background.watchdog.period"@);
        assert(value_for_key_from(t, "background.watchdog.period"@, 2) == Some(t[14].1));
        assert(t[1].0 != "background.watchdog.period"@);
        assert(value_for_key_from(t, "background.watchdog.period"@, 1) == Some(t[14].1));
        assert(t[0].0 != "background.watchdog.period"@);
        assert(value_for_key_from(t, "background.watchdog.period"@, 0) == Some(t[14].1));
    }
    assert(value_for_key_from(t, "background.watchdog.limit"@, 0) == Some(t[15].1)) by {
        assert(value_for_key_from(t, "background.watchdog.limit"@, 15) == Some(t[15].1));
        assert(t[14].0 != "background.watchdog.limit"@);
        assert(value_for_key_from(t, "background.watchdog.limit"@, 14) == Some(t[15].1));
        assert(t[13].0 != "background.watchdog.limit"@);
        assert(value_for_key_from(t, "background.watchdog.limit"@, 13) == Some(t[15].1));
        assert(t[12].0 != "background.watchdog.limit"@);
        assert(value_for_key_from(t, "background.watchdog.limit"@, 12) == Some(t[15].1));
        assert(t[11].0 != "background.watchdog.limit"@);
        assert(value_for_key_from(t, "background.watchdog.limit"@, 11) == Some(t[15].1));
        assert(t[10].0 != "background.watchdog.limit"@);
        assert(value_for_key_from(t, "background.watchdog.limit"@, 10) == Some(t[15].1));
        assert(t[9].0 != "background.watchdog.limit"@);
        assert(value_for_key_from(t, "background.watchdog.limit"@, 9) == Some(t[15].1));
        assert(t[8].0 != "background.watchdog.limit"@);
        assert(value_for_key_from(t, "background.watchdog.limit"@, 8) == Some(t[15].1));
        assert(t[7].0 != "background.watchdog.limit"@);
        assert(value_for_key_from(t, "background.watchdog.limit"@, 7) == Some(t[15].1));
        assert(t[6].0 != "background.watchdog.limit"@);
        assert(value_for_key_from(t, "background.watchdog.limit"@, 6) == Some(t[15].1));
        assert(t[5].0 != "background.watchdog.limit"@);
        assert(value_for_key_from(t, "background.watchdog.limit"@, 5) == Some(t[15].1));
        assert(t[4].0 != "background.watchdog.limit"@);
        assert(value_for_key_from(t, "background.watchdog.limit"@, 4) == Some(t[15].1));
        assert(t[3].0 != "background.watchdog.limit"@);
        assert(value_for_key_from(t, "background.watchdog.limit"@, 3) == Some(t[15].1));
        assert(t[2].0 != "background.watchdog.limit"@);
        assert(value_for_key_from(t, "background.watchdog.limit"@, 2) == Some(t[15].1));
        assert(t[1].0 != "background.watchdog.limit"@);
        assert(value_for_key_from(t, "background.watchdog.limit"@, 1) == Some(t[15].1));
        assert(t[0].0 != "background.watchdog.limit"@);
        assert(value_for_key_from(t, "background.watchdog.limit"@, 0) == Some(t[15].1));
    }
    assert(value_for_key_from(t, "background.watchdog.lock_timeout"@, 0) == Some(t[16].1)) by {
        assert(value_for_key_from(t, "background.watchdog.lock_timeout"@, 16) == Some(t[16].1));
        assert(t[15].0 != "background.watchdog.lock_timeout"@);
        assert(value_for_key_from(t, "background.watchdog.lock_timeout"@, 15) == Some(t[16].1));
        assert(t[14].0 != "background.watchdog.lock_timeout"@);
        assert(value_for_key_from(t, "background.watchdog.lock_timeout"@, 14) == Some(t[16].1));
        assert(t[13].0 != "background.watchdog.lock_timeout"@);
        assert(value_for_key_from(t, "background.watchdog.lock_timeout"@, 13) == Some(t[16].1));
        assert(t[12].0 != "background.watchdog.lock_timeout"@);
        assert(value_for_key_from(t, "background.watchdog.lock_timeout"@, 12) == Some(t[16].1));
        assert(t[11].0 != "background.watchdog.lock_timeout"@);
        assert(value_for_key_from(t, "background.watchdog.lock_timeout"@, 11) == Some(t[16].1));
        assert(t[10].0 != "background.watchdog.lock_timeout"@);
        assert(value_for_key_from(t, "background.watchdog.lock_timeout"@, 10) == Some(t[16].1));
        assert(t[9].0 != "background.watchdog.lock_timeout"@);
        assert(value_for_key_from(t, "background.watchdog.lock_timeout"@, 9) == Some(t[16].1));
        assert(t[8].0 != "background.watchdog.lock_timeout"@);
        assert(value_for_key_from(t, "background.watchdog.lock_timeout"@, 8) == Some(t[16].1));
        assert(t[7].0 != "background.watchdog.lock_timeout"@);
        assert(value_for_key_from(t, "background.watchdog.lock_timeout"@, 7) == Some(t[16].1));
        assert(t[6].0 != "background.watchdog.lock_timeout"@);
        assert(value_for_key_from(t, "background.watchdog.lock_timeout"@, 6) == Some(t[16].1));
        assert(t[5].0 != "background.watchdog.lock_timeout"@);
        assert(value_for_key_from(t, "background.watchdog.lock_timeout"@, 5) == Some(t[16].1));
        assert(t[4].0 != "background.watchdog.lock_timeout"@);
        assert(value_for_key_from(t, "background.watchdog.lock_timeout"@, 4) == Some(t[16].1));
        assert(t[3].0 != "background.watchdog.lock_timeout"@);
        assert(value_for_key_from(t, "background.watchdog.lock_timeout"@, 3) == Some(t[16].1));
        assert(t[2].0 != "background.watchdog.lock_timeout"@);
        assert(value_for_key_from(t, "background.watchdog.lock_timeout"@, 2) == Some(t[16].1));
        assert(t[1].0 != "background.watchdog.lock_timeout"@);
        assert(value_for_key_from(t, "background.watchdog.lock_timeout"@, 1) == Some(t[16].1));
        assert(t[0].0 != "background.watchdog.lock_timeout"@);
        assert(value_for_key_from(t, "background.watchdog.lock_timeout"@, 0) == Some(t[16].1));
    }
}

fn entry(key: &str, value: DefaultValue) -> (r: (String, DefaultValue))
    ensures
        r.0@ == key@,
        r.1 == value,
{
    (key.to_owned(), value)
}

fn text(t: &str) -> (r: DefaultValue)
    ensures
        r.as_view() == DefaultView::Text(t@),
{
    DefaultValue::Text(t.to_owned())
}

/// The default of every setting, in the order in which they are set.
pub fn config_defaults() -> (r: Vec<(String, DefaultValue)>)
    ensures
        r@.len() == default_table().len(),
        forall|i: int|
            0 <= i < r@.len() ==> (#[trigger] r@[i]).0@ == default_table()[i].0 && r@[i].1.as_view()
                == default_table()[i].1,
{
    let mut r: Vec<(String, DefaultValue)> = Vec::new();
    r.push(entry("mode.debug", DefaultValue::Flag(false)));
    r.push(entry("server.external_url", text("http://127.0.0.1")));
    r.push(entry("server.http_port", DefaultValue::Number(8081)));
    r.push(entry("server.grpc_port", DefaultValue::Number(8082)));
    r.push(entry("server.healthz_port", DefaultValue::Number(10025)));
    r.push(entry("server.metrics_port", DefaultValue::Number(9199)));
    r.push(entry("db.mysql.host", text("127.0.0.1")));
    r.push(entry("db.mysql.port", DefaultValue::Number(3306)));
    r.push(entry("db.mysql.dating", text("default")));
    r.push(entry("db.mysql.user", text("root")));
    r.push(entry("db.mysql.pass", text("")));
    r.push(entry("db.mysql.connections.max_idle", DefaultValue::Number(30)));
    r.push(entry("db.mysql.connections.max_open", DefaultValue::Number(30)));
    r.push(entry("log.app.level", text("info")));
    r.push(entry("background.watchdog.period", text("5s")));
    r.push(entry("background.watchdog.limit", DefaultValue::Number(10)));
    r.push(entry("background.watchdog.lock_timeout", text("4s")));
    r
}

/// The override that `--debug` adds above every source: `mode.debug` set to
/// true; without the flag there is none.
pub fn debug_override(debug: bool) -> (r: Option<(String, bool)>)
    ensures
        debug ==> (r matches Some((k, v)) && k@ == "mode.debug"@ && v),
        !debug ==> r is None,
{
    if debug {
        Some(("mode.debug".to_owned(), true))
    } else {
        None
    }
}

} // verus!
