use serde_json::Value;
use warpgate_connect::list::render_targets;
use warpgate_connect::warpgate::{WarpgateTarget, WarpgateTargetGroup};

/// A trimmed response from `/@warpgate/api/targets`, including a non-SSH target and a name holding
/// the punctuation a comma-separated format would have had to escape.
const TARGETS_PAYLOAD: &str = r#"[
    {
        "id": "8f1c0a1e-0000-4000-8000-000000000001",
        "name": "prod-db",
        "description": "Primary database",
        "kind": "Ssh",
        "group": { "name": "Production", "id": "grp-1", "color": "Danger" }
    },
    {
        "id": "8f1c0a1e-0000-4000-8000-000000000002",
        "name": "admin-panel",
        "description": "Warpgate admin UI",
        "kind": "Http",
        "group": null
    },
    {
        "id": "8f1c0a1e-0000-4000-8000-000000000003",
        "name": "db, replica \"west\"",
        "description": null,
        "kind": "Ssh",
        "group": null
    }
]"#;

fn optional_text(value: &Value, field: &str) -> Option<String> {
    value.get(field).and_then(Value::as_str).map(str::to_string)
}

/// Reads the payload the way the front end hands it over: the fields the library keeps.
fn parse_targets(payload: &str) -> Vec<WarpgateTarget> {
    let parsed: Value = serde_json::from_str(payload).expect("payload should deserialize");
    parsed
        .as_array()
        .expect("the payload is a list")
        .iter()
        .map(|entry| WarpgateTarget {
            description: optional_text(entry, "description"),
            group: entry
                .get("group")
                .filter(|group| !group.is_null())
                .map(|group| WarpgateTargetGroup {
                    name: optional_text(group, "name").expect("a group has a name"),
                    color: optional_text(group, "color"),
                }),
            kind: optional_text(entry, "kind").expect("a target has a kind"),
            name: optional_text(entry, "name").expect("a target has a name"),
        })
        .collect()
}

#[test]
fn renders_ssh_targets_only() {
    let targets = parse_targets(TARGETS_PAYLOAD);

    let rendered = render_targets(&targets, "admin", "warpgate.example.com", 2222);

    assert_eq!(
        rendered,
        "target\tusername\thost\tport\n\
         prod-db\tadmin:prod-db\twarpgate.example.com\t2222\n\
         db, replica \"west\"\tadmin:db, replica \"west\"\twarpgate.example.com\t2222\n"
    );
    assert!(!rendered.contains("admin-panel"));
}

#[test]
fn renders_a_header_when_nothing_is_reachable_over_ssh() {
    let targets = parse_targets(TARGETS_PAYLOAD);
    let http_only: Vec<WarpgateTarget> = targets.into_iter().filter(|t| !t.is_ssh()).collect();

    assert_eq!(
        render_targets(&http_only, "admin", "warpgate.example.com", 2222),
        "target\tusername\thost\tport\n"
    );
}

#[test]
fn renders_each_port_in_decimal() {
    let targets = vec![WarpgateTarget::new(None, None, "Ssh".to_string(), "a".to_string())];
    assert_eq!(
        render_targets(&targets, "u", "h", 0),
        "target\tusername\thost\tport\na\tu:a\th\t0\n"
    );
    assert_eq!(
        render_targets(&targets, "u", "h", 65535),
        "target\tusername\thost\tport\na\tu:a\th\t65535\n"
    );
}

#[test]
fn an_empty_listing_is_the_header() {
    assert_eq!(render_targets(&[], "admin", "host", 22), "target\tusername\thost\tport\n");
}
