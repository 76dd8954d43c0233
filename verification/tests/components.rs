use axml::parser::XmlElement;
use axml::{find_elements_by_type, get_exposed_components, is_component_exposed};

fn make_element(ty: &str, attrs: &[(&str, &str)], children: Vec<XmlElement>) -> XmlElement {
    XmlElement {
        element_type: String::from(ty),
        attributes: attrs
            .iter()
            .map(|(k, v)| (String::from(*k), String::from(*v)))
            .collect(),
        children,
    }
}

#[test]
fn test_exposed_by_explicit_export() {
    let activity = make_element("activity", &[("android:exported", "true")], vec![]);
    assert!(is_component_exposed(&activity));
}

#[test]
fn test_hidden_by_explicit_export_false() {
    let filter = make_element("intent-filter", &[], vec![]);
    let activity = make_element("activity", &[("android:exported", "false")], vec![filter]);
    assert!(!is_component_exposed(&activity));
}

#[test]
fn test_hidden_by_disabled() {
    let activity = make_element(
        "activity",
        &[("android:enabled", "false"), ("android:exported", "true")],
        vec![],
    );
    assert!(!is_component_exposed(&activity));
}

#[test]
fn test_exposed_by_intent_filter_default() {
    let filter = make_element("intent-filter", &[], vec![]);
    let activity = make_element("activity", &[], vec![filter]);
    assert!(is_component_exposed(&activity));
}

#[test]
fn test_hidden_without_intent_filter() {
    let activity = make_element("activity", &[], vec![]);
    assert!(!is_component_exposed(&activity));
}

#[test]
fn test_find_elements_by_type_visits_whole_tree() {
    let a1 = make_element("activity", &[("android:name", "One")], vec![]);
    let a2 = make_element("activity", &[("android:name", "Two")], vec![]);
    let service = make_element("service", &[], vec![a2]);
    let application = make_element("application", &[], vec![a1, service]);
    let root = make_element("manifest", &[], vec![application]);

    let found = find_elements_by_type(&root, "activity");
    assert_eq!(found.len(), 2);
    // The stack-based search visits the last child's subtree first.
    assert_eq!(found[0].get_attribute(&String::from("android:name")), Some(String::from("Two")));
    assert_eq!(found[1].get_attribute(&String::from("android:name")), Some(String::from("One")));

    assert_eq!(find_elements_by_type(&root, "manifest").len(), 1);
    assert_eq!(find_elements_by_type(&root, "provider").len(), 0);
}

#[test]
fn test_get_exposed_components_lists_each_kind() {
    let filter = make_element("intent-filter", &[], vec![]);
    let exposed_activity = make_element("activity", &[], vec![filter]);
    let hidden_activity = make_element("activity", &[], vec![]);
    let exposed_service = make_element("service", &[("android:exported", "true")], vec![]);
    let hidden_receiver = make_element("receiver", &[("android:exported", "false")], vec![]);
    let application = make_element(
        "application",
        &[],
        vec![exposed_activity, hidden_activity, exposed_service, hidden_receiver],
    );
    let root = make_element("manifest", &[], vec![application]);

    let components = get_exposed_components(&root).unwrap();
    assert_eq!(components.activities.len(), 1);
    assert_eq!(components.services.len(), 1);
    assert_eq!(components.providers.len(), 0);
    assert_eq!(components.receivers.len(), 0);
}

#[test]
fn test_get_exposed_components_without_application() {
    let root = make_element("manifest", &[], vec![]);
    assert!(get_exposed_components(&root).is_none());
}

#[test]
fn test_get_exposed_components_disabled_application() {
    let application = make_element("application", &[("android:enabled", "false")], vec![]);
    let root = make_element("manifest", &[], vec![application]);
    assert!(get_exposed_components(&root).is_none());
}
