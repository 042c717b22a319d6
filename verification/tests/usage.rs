use wakezilla::models::{AccessHistory, ServiceAccessHistory};
use wakezilla::usage::{bucket_by_day, bucket_days};

fn svc(name: Option<&str>, port: u16, timestamps: Vec<i64>) -> ServiceAccessHistory {
    ServiceAccessHistory {
        name: name.map(|n| n.to_string()),
        local_port: port,
        target_port: port,
        timestamps,
    }
}

#[test]
fn bucket_days_sorts_days_and_counts() {
    let services = vec![
        ("web".to_string(), vec!["2024-03-02".to_string(), "2024-03-01".to_string(), "2024-03-02".to_string()]),
        ("ssh".to_string(), vec!["2023-12-31".to_string()]),
        ("idle".to_string(), vec![]),
    ];
    let (labels, sets) = bucket_days(&services);
    assert_eq!(labels, vec!["2023-12-31", "2024-03-01", "2024-03-02"]);
    assert_eq!(sets.len(), 3);
    assert_eq!(sets[0].label, "web");
    assert_eq!(sets[0].data, vec![0, 1, 2]);
    assert_eq!(sets[1].data, vec![1, 0, 0]);
    assert_eq!(sets[2].label, "idle");
    assert_eq!(sets[2].data, vec![0, 0, 0]);
}

#[test]
fn bucket_days_orders_prefix_first() {
    let services = vec![("s".to_string(), vec!["ab".to_string(), "a".to_string(), "b".to_string(), "a".to_string()])];
    let (labels, sets) = bucket_days(&services);
    assert_eq!(labels, vec!["a", "ab", "b"]);
    assert_eq!(sets[0].data, vec![2, 1, 1]);
}

#[test]
fn bucket_by_day_uses_utc_days_and_port_labels() {
    let day = 86_400_000i64;
    let history = AccessHistory {
        services: vec![
            svc(Some("web"), 80, vec![0, 1000, day + 5, 19_723 * day]),
            svc(None, 2222, vec![day - 1, day]),
        ],
    };
    let (labels, sets) = bucket_by_day(&history);
    assert_eq!(labels, vec!["1970-01-01", "1970-01-02", "2024-01-01"]);
    assert_eq!(sets[0].label, "web");
    assert_eq!(sets[0].data, vec![2, 1, 1]);
    assert_eq!(sets[1].label, "port 2222");
    assert_eq!(sets[1].data, vec![1, 1, 0]);
}

#[test]
fn bucket_by_day_of_empty_history() {
    let (labels, sets) = bucket_by_day(&AccessHistory { services: vec![] });
    assert!(labels.is_empty());
    assert!(sets.is_empty());
}

#[test]
fn chart_counts_every_access_once() {
    let day = 86_400_000i64;
    let history = AccessHistory {
        services: vec![svc(Some("a"), 1, vec![5 * day, 0, 5 * day + 7, 2 * day, 0]), svc(Some("b"), 2, vec![3 * day])],
    };
    let (labels, sets) = bucket_by_day(&history);
    assert_eq!(labels.len(), 4);
    for (i, set) in sets.iter().enumerate() {
        let total: u32 = set.data.iter().sum();
        assert_eq!(total as usize, history.services[i].timestamps.len());
    }
}

#[test]
fn unplaceable_timestamp_counts_on_todays_date() {
    let history = AccessHistory { services: vec![svc(Some("a"), 1, vec![i64::MAX, i64::MIN])] };
    let (labels, sets) = bucket_by_day(&history);
    assert!(labels.len() >= 1 && labels.len() <= 2);
    for l in &labels {
        assert_eq!(l.len(), 10);
        assert!(l.starts_with("20"));
    }
    let total: u32 = sets[0].data.iter().sum();
    assert_eq!(total, 2);
}
