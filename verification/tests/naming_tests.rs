use topic_operator::model::{Application, Metadata};
use topic_operator::naming::{grammar_check, topic_resource_name, MAX_TOPIC_LEN};
use topic_operator::reconcile::ApplicationReconciler;

fn app_named(name: &str) -> Application {
    Application {
        metadata: Metadata {
            name: name.to_string(),
            generation: 0,
            deletion_timestamp: None,
            finalizers: vec![],
        },
        status: None,
    }
}

#[test]
fn topic_names() {
    for i in [
        ("foo", "events-foo"),
        ("00foo", "events-00foo"),
        (
            "0123456789012345678901234567890123456789012345678901234567890123456789",
            "evt-109eb12c10c45d94ddac8eca7b818bed-01234567890123456789012345",
        ),
        ("FOO", "evt-901890a8e9c8cf6d5a1a542b229febff-foo"),
        ("foo-", "evt-03f19ca8da08c40c2d036c8915d383e2-foo"),
    ] {
        assert_eq!(
            i.1,
            ApplicationReconciler::make_topic_resource_name(&app_named(i.0))
        )
    }
}

#[test]
fn simple_name_for_plain_identity() {
    assert_eq!(topic_resource_name("foo"), "events-foo");
    assert_eq!(topic_resource_name("a-b.c"), "events-a-b.c");
}

#[test]
fn fallback_keeps_ceiling_and_grammar() {
    let cases = [
        "",
        "FOO",
        "foo-",
        "has spaces",
        "Ünicode",
        "x.y..z",
        "0123456789012345678901234567890123456789012345678901234567890123456789",
    ];
    for name in cases {
        let derived = topic_resource_name(name);
        assert!(derived.len() <= MAX_TOPIC_LEN, "too long for {:?}: {}", name, derived);
        let chars: Vec<char> = derived.chars().collect();
        assert!(grammar_check(&chars), "invalid for {:?}: {}", name, derived);
        assert!(!derived.ends_with('-'));
    }
}

#[test]
fn name_is_deterministic_and_rederivable() {
    for name in ["foo", "FOO", "", "Ünicode", "x y"] {
        let first = topic_resource_name(name);
        let second = topic_resource_name(name);
        assert_eq!(first, second);
    }
}

#[test]
fn distinct_fallback_identities_get_distinct_names() {
    let a = topic_resource_name("FOO");
    let b = topic_resource_name("FOO-");
    assert_ne!(a, b);
}

#[test]
fn fallback_used_for_invalid_or_long_identities() {
    assert!(topic_resource_name("FOO").starts_with("evt-"));
    assert!(topic_resource_name("foo-").starts_with("evt-"));
    let long = "0123456789012345678901234567890123456789012345678901234567890123456789";
    assert!(topic_resource_name(long).starts_with("evt-"));
}
