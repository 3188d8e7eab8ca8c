use raur::metadata::{copy_opt, query_url_for, AurResponse, PackageInfo, PackageQueryResult};

fn info(name: &str, version: &str, description: Option<&str>) -> PackageInfo {
    PackageInfo {
        name: name.to_string(),
        version: version.to_string(),
        description: description.map(|d| d.to_string()),
    }
}

#[test]
fn query_url_names_the_package() {
    assert_eq!(query_url_for("foo-bin"), "https://aur.archlinux.org/rpc/?v=5&type=info&arg=foo-bin");
    assert_eq!(query_url_for(""), "https://aur.archlinux.org/rpc/?v=5&type=info&arg=");
}

#[test]
fn zero_count_is_not_found() {
    let r = AurResponse { resultcount: 0, results: vec![] };
    assert!(r.is_consistent());
    assert_eq!(r.classify(), PackageQueryResult::NotFound);
    assert_eq!(r.try_classify(), Some(PackageQueryResult::NotFound));
}

#[test]
fn zero_count_wins_over_records() {
    let r = AurResponse { resultcount: 0, results: vec![info("foo", "1", None)] };
    assert!(r.is_consistent());
    assert_eq!(r.classify(), PackageQueryResult::NotFound);
}

#[test]
fn first_record_is_the_package() {
    let r = AurResponse {
        resultcount: 2,
        results: vec![info("foo", "1.0-1", Some("a thing")), info("bar", "2", None)],
    };
    assert!(r.is_consistent());
    assert_eq!(
        r.classify(),
        PackageQueryResult::Found {
            name: "foo".to_string(),
            version: "1.0-1".to_string(),
            description: Some("a thing".to_string()),
        }
    );
}

#[test]
fn missing_description_stays_missing() {
    let r = AurResponse { resultcount: 1, results: vec![info("foo", "1.0-1", None)] };
    assert_eq!(
        r.try_classify(),
        Some(PackageQueryResult::Found {
            name: "foo".to_string(),
            version: "1.0-1".to_string(),
            description: None,
        })
    );
}

#[test]
fn count_without_records_is_inconsistent() {
    let r = AurResponse { resultcount: 1, results: vec![] };
    assert!(!r.is_consistent());
    assert_eq!(r.try_classify(), None);
}

#[test]
fn copy_opt_copies() {
    assert_eq!(copy_opt(&None), None);
    assert_eq!(copy_opt(&Some("x".to_string())), Some("x".to_string()));
}
