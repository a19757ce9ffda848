use prometheus::Registry;
use svc_utils::labels::{route_label, stat_slot, status_label, MetricMethod, STAT_SLOTS};
use svc_utils::registry::Metrics;
use svc_utils::route_metrics::{MetricsMiddlewareLayer, RouteMetrics};

fn stat_value(reg: &Registry, path: &str, method: &str, status: &str) -> Option<f64> {
    for fam in reg.gather() {
        if fam.get_name() != "request_stats" {
            continue;
        }
        for m in fam.get_metric() {
            let mut ok = true;
            for l in m.get_label() {
                let want = match l.get_name() {
                    "path" => path,
                    "method" => method,
                    _ => status,
                };
                ok = ok && l.get_value() == want;
            }
            if ok {
                return Some(m.get_counter().get_value());
            }
        }
    }
    None
}

fn stat_series(reg: &Registry) -> usize {
    reg.gather()
        .iter()
        .filter(|f| f.get_name() == "request_stats")
        .map(|f| f.get_metric().len())
        .sum()
}

fn duration_samples(reg: &Registry, path: &str, method: &str) -> Option<u64> {
    for fam in reg.gather() {
        if fam.get_name() != "request_duration" {
            continue;
        }
        for m in fam.get_metric() {
            let labels: Vec<(&str, &str)> =
                m.get_label().iter().map(|l| (l.get_name(), l.get_value())).collect();
            if labels.contains(&("path", path)) && labels.contains(&("method", method)) {
                return Some(m.get_histogram().get_sample_count());
            }
        }
    }
    None
}

#[test]
fn route_labels() {
    assert_eq!(route_label("/rooms/:id"), "rooms_id");
    assert_eq!(route_label("//a/b"), "a_b");
    assert_eq!(route_label("plain"), "plain");
    assert_eq!(route_label(""), "");
    assert_eq!(route_label("/"), "");
}

#[test]
fn method_names() {
    assert_eq!(MetricMethod::from_name("GET"), Some(MetricMethod::Get));
    assert_eq!(MetricMethod::from_name("OPTIONS"), Some(MetricMethod::Options));
    assert_eq!(MetricMethod::from_name("DELETE"), None);
    assert_eq!(MetricMethod::Patch.as_str(), "PATCH");
    assert_eq!(MetricMethod::Head.index(), 5);
}

#[test]
fn status_slots_cover_counted_range() {
    assert_eq!(stat_slot(MetricMethod::Put, 99), None);
    assert_eq!(stat_slot(MetricMethod::Put, 100), Some(0));
    assert_eq!(stat_slot(MetricMethod::Head, 598), Some(STAT_SLOTS - 1));
    assert_eq!(stat_slot(MetricMethod::Get, 599), None);
    assert_eq!(stat_slot(MetricMethod::Post, 200), Some(499 + 100));
}

#[test]
fn status_labels() {
    assert_eq!(status_label(200), "200");
    assert_eq!(status_label(404), "404");
    assert_eq!(status_label(100), "100");
}

#[test]
fn rooms_route_first_requests() {
    let mut reg = Registry::new();
    let metrics = Metrics::new_in(&mut reg).ok().unwrap();
    let mut rm = MetricsMiddlewareLayer::new("/rooms/:id".to_string()).route_metrics();
    assert_eq!(rm.label(), "rooms_id");

    let timer = rm.start_timer(&metrics, MetricMethod::Get).ok().unwrap();
    drop(timer);
    rm.record_status(&metrics, MetricMethod::Get, 200).ok().unwrap();
    assert_eq!(duration_samples(&reg, "rooms_id", "GET"), Some(1));
    assert_eq!(stat_value(&reg, "rooms_id", "GET", "200"), Some(1.0));

    let timer = rm.start_timer(&metrics, MetricMethod::Get).ok().unwrap();
    drop(timer);
    rm.record_status(&metrics, MetricMethod::Get, 200).ok().unwrap();
    assert_eq!(duration_samples(&reg, "rooms_id", "GET"), Some(2));
    assert_eq!(stat_value(&reg, "rooms_id", "GET", "200"), Some(2.0));
    assert_eq!(stat_series(&reg), 1);
}

#[test]
fn many_requests_share_one_counter() {
    let mut reg = Registry::new();
    let metrics = Metrics::new_in(&mut reg).ok().unwrap();
    let mut rm = RouteMetrics::new("/items");
    for _ in 0..25 {
        rm.record_status(&metrics, MetricMethod::Post, 201).ok().unwrap();
    }
    assert_eq!(stat_series(&reg), 1);
    assert_eq!(stat_value(&reg, "items", "POST", "201"), Some(25.0));
}

#[test]
fn uncounted_status_changes_nothing() {
    let mut reg = Registry::new();
    let metrics = Metrics::new_in(&mut reg).ok().unwrap();
    let mut rm = RouteMetrics::new("/items");
    assert!(rm.record_status(&metrics, MetricMethod::Get, 599).is_ok());
    assert!(rm.record_status(&metrics, MetricMethod::Get, 42).is_ok());
    assert_eq!(stat_series(&reg), 0);
}

#[test]
fn distinct_outcomes_get_distinct_counters() {
    let mut reg = Registry::new();
    let metrics = Metrics::new_in(&mut reg).ok().unwrap();
    let mut rm = RouteMetrics::new("/items");
    rm.record_status(&metrics, MetricMethod::Get, 200).ok().unwrap();
    rm.record_status(&metrics, MetricMethod::Get, 404).ok().unwrap();
    rm.record_status(&metrics, MetricMethod::Put, 200).ok().unwrap();
    assert_eq!(stat_series(&reg), 3);
    assert_eq!(stat_value(&reg, "items", "GET", "404"), Some(1.0));
}

#[test]
fn missing_size_hint_skips_observation() {
    let mut reg = Registry::new();
    let metrics = Metrics::new_in(&mut reg).ok().unwrap();
    let rm = RouteMetrics::new("/items");
    assert!(rm.body_size_observation(&metrics, "POST", None).is_none());
}

#[test]
fn size_hint_is_observed() {
    let mut reg = Registry::new();
    let metrics = Metrics::new_in(&mut reg).ok().unwrap();
    let rm = RouteMetrics::new("/items");
    let (h, size) = rm.body_size_observation(&metrics, "DELETE", Some(10)).unwrap().ok().unwrap();
    assert_eq!(size, 10);
    h.observe(size as f64);
    assert_eq!(h.get_sample_count(), 1);
}

#[test]
fn registering_twice_is_refused() {
    let mut reg = Registry::new();
    assert!(Metrics::new_in(&mut reg).is_ok());
    assert!(Metrics::new_in(&mut reg).is_err());
}

#[test]
fn registered_families_are_named() {
    let mut reg = Registry::new();
    let metrics = Metrics::new_in(&mut reg).ok().unwrap();
    let mut rm = RouteMetrics::new("/x");
    rm.record_status(&metrics, MetricMethod::Get, 200).ok().unwrap();
    drop(rm.start_timer(&metrics, MetricMethod::Get).ok().unwrap());
    let (h, size) = rm.body_size_observation(&metrics, "GET", Some(3)).unwrap().ok().unwrap();
    h.observe(size as f64);
    let mut names: Vec<String> = reg.gather().iter().map(|f| f.get_name().to_string()).collect();
    names.sort();
    assert_eq!(names, vec!["request_body_size", "request_duration", "request_stats"]);
}
