use health_crab::app::{ApiInformation, App, ListRequests};
use health_crab::config::{keys_unique, Api, ApisConfig, ConfigMethod, Request};
use health_crab::email::{compose_alert, Config};
use health_crab::health::HealthStatus;
use health_crab::schedule::{Countdown, ResultTable};

fn s(x: &str) -> String {
    x.to_string()
}

fn row(id: usize, status: HealthStatus, interval: u64) -> ListRequests {
    ListRequests {
        id,
        data: ApiInformation { name: format!("api{id}"), url: s("u"), method: s("GET"), status },
        interval,
    }
}

fn endpoint(name: &str, interval: u64) -> Api {
    Api {
        name: s(name),
        depends_on: None,
        request: Request {
            url: format!("http://{name}"),
            headers: None,
            method: ConfigMethod::POST,
            body: None,
        },
        expected_status: 200,
        interval,
        system_notify: false,
        notify_type: s("ERROR"),
    }
}

#[test]
fn countdowns_keep_independent_cadence() {
    let duration = 30;
    let mut clocks: Vec<Countdown> = vec![Countdown::new(2), Countdown::new(3), Countdown::new(7)];
    let mut polls = vec![0u64; 3];
    for _ in 0..duration {
        for (i, c) in clocks.iter_mut().enumerate() {
            if c.tick() {
                polls[i] += 1;
            }
        }
    }
    assert_eq!(polls, vec![15, 10, 4]);
    assert_eq!(clocks[2].remaining(), 7 - 30 % 7);
}

#[test]
fn countdown_zero_interval_counts_as_one() {
    let mut c = Countdown::new(0);
    assert_eq!(c.remaining(), 1);
    assert!(c.tick());
    assert!(c.tick());
}

#[test]
fn countdown_reports_seconds_left() {
    let mut c = Countdown::new(3);
    assert_eq!(c.remaining(), 3);
    assert!(!c.tick());
    assert_eq!(c.remaining(), 2);
    assert!(!c.tick());
    assert_eq!(c.remaining(), 1);
    assert!(c.tick());
    assert_eq!(c.remaining(), 3);
}

#[test]
fn result_table_keeps_one_row_per_endpoint() {
    let mut t = ResultTable::new();
    t.record(row(0, HealthStatus::Pending, 5));
    t.record(row(1, HealthStatus::Pending, 9));
    t.record(row(0, HealthStatus::Failure, 5));
    t.set_countdown(1, 4);
    t.set_countdown(7, 1);
    let snap = t.snapshot();
    assert_eq!(snap.len(), 2);
    assert_eq!(snap[0].id, 0);
    assert_eq!(snap[0].data.status, HealthStatus::Failure);
    assert_eq!(snap[1].id, 1);
    assert_eq!(snap[1].interval, 4);
    assert_eq!(snap[1].data.status, HealthStatus::Pending);
}

#[test]
fn app_lists_pending_rows_in_order() {
    let configs = ApisConfig {
        requests: vec![(s("a"), endpoint("a", 5)), (s("b"), endpoint("b", 9))],
    };
    let mut app = App::new(configs);
    assert!(app.apis_infos.is_empty());
    app.format_api_infos();
    assert_eq!(app.apis_infos.len(), 2);
    assert_eq!(app.apis_infos[1].id, 1);
    assert_eq!(app.apis_infos[1].interval, 9);
    assert_eq!(app.apis_infos[1].data.name, "b");
    assert_eq!(app.apis_infos[1].data.url, "http://b");
    assert_eq!(app.apis_infos[1].data.method, "POST");
    assert_eq!(app.apis_infos[1].data.status, HealthStatus::Pending);
    app.append_satus2(vec![row(3, HealthStatus::Success, 2)]);
    assert_eq!(app.apis_infos.len(), 1);
    assert_eq!(app.apis_infos[0].id, 3);
}

#[test]
fn email_settings_mark_missing_values() {
    let full = Config::new(Some(s("a@x")), Some(s("b@x")), Some(s("u")), Some(s("p"))).unwrap();
    assert!(!full.missing_config);
    assert_eq!(full.to_address, "b@x");
    let partial = Config::new(Some(s("a@x")), None, Some(s("u")), Some(s("p"))).unwrap();
    assert!(partial.missing_config);
    assert_eq!(partial.to_address, "");
}

#[test]
fn alert_rejects_bad_sender_first() {
    let config = Config::new(Some(s("not an address")), Some(s("also bad")), None, None).unwrap();
    let err = compose_alert(&config, s("down")).unwrap_err();
    assert!(err.starts_with("Could not convert email for 'from' from text 'not an address'. Error: "));
}

#[test]
fn alert_rejects_bad_recipient() {
    let config = Config::new(Some(s("ops@example.com")), Some(s("nobody")), None, None).unwrap();
    let err = compose_alert(&config, s("down")).unwrap_err();
    assert!(err.starts_with("Could not convert email for 'to' from text 'nobody'. Error: "));
}

#[test]
fn alert_built_for_valid_addresses() {
    let config = Config::new(
        Some(s("Ops <ops@example.com>")),
        Some(s("oncall@example.com")),
        Some(s("u")),
        Some(s("p")),
    )
    .unwrap();
    let message = compose_alert(&config, s("api svc is down")).unwrap();
    let text = String::from_utf8(message.formatted()).unwrap();
    assert!(text.contains("Subject: ALERT: Api error"));
    assert!(text.contains("api svc is down"));
}

#[test]
fn configuration_names_must_be_unique() {
    let ok = ApisConfig { requests: vec![(s("a"), endpoint("a", 5)), (s("b"), endpoint("b", 9))] };
    assert!(ok.is_wf());
    let twice = ApisConfig { requests: vec![(s("a"), endpoint("a", 5)), (s("a"), endpoint("b", 9))] };
    assert!(!twice.is_wf());
    let mut bad_header = endpoint("c", 1);
    bad_header.request.headers = Some(vec![(s("X"), s("1")), (s("X"), s("2"))]);
    let with_bad = ApisConfig { requests: vec![(s("c"), bad_header)] };
    assert!(!with_bad.is_wf());
    assert!(keys_unique(&vec![(s("x"), 1), (s("y"), 2)]));
    assert!(!keys_unique(&vec![(s("x"), 1), (s("y"), 2), (s("x"), 3)]));
}
