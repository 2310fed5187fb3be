use warpgate_connect::warpgate::{WarpgateFilterableTarget, WarpgateTarget, WarpgateTargetGroup};

fn prod_db() -> WarpgateTarget {
    WarpgateTarget {
        description: Some("Primary database".to_string()),
        group: Some(WarpgateTargetGroup {
            name: "Production".to_string(),
            color: Some("Danger".to_string()),
        }),
        kind: "Ssh".to_string(),
        name: "prod-db".to_string(),
    }
}

fn staging_web() -> WarpgateTarget {
    WarpgateTarget {
        description: None,
        group: Some(WarpgateTargetGroup {
            name: "Staging".to_string(),
            color: None,
        }),
        kind: "Ssh".to_string(),
        name: "staging-web".to_string(),
    }
}

#[test]
fn filterable_name_includes_description_when_present() {
    let with_description = WarpgateFilterableTarget::new(prod_db());
    assert_eq!(with_description.as_ref(), "prod-db (Primary database)");

    let without_description = WarpgateFilterableTarget::new(staging_web());
    assert_eq!(without_description.as_ref(), "staging-web ()");
}

#[test]
fn the_filterable_name_is_what_the_target_is_searched_by() {
    assert_eq!(prod_db().filterable_name(), "prod-db (Primary database)");
    let wrapped = WarpgateFilterableTarget::new(staging_web());
    assert_eq!(wrapped.as_str(), "staging-web ()");
    assert_eq!(wrapped.warpgate_target.name, "staging-web");
}

#[test]
fn only_the_ssh_kind_is_reachable_over_ssh() {
    assert!(prod_db().is_ssh());
    let mut http = prod_db();
    http.kind = "Http".to_string();
    assert!(!http.is_ssh());
    http.kind = "ssh".to_string();
    assert!(!http.is_ssh(), "the kind is compared exactly");
}

#[test]
fn a_duplicate_is_equal_field_by_field() {
    let target = prod_db();
    let copy = target.duplicate();
    assert_eq!(copy.name, target.name);
    assert_eq!(copy.kind, target.kind);
    assert_eq!(copy.description, target.description);
    assert_eq!(copy.group, target.group);
}
