use figma_tree::gen::alert::ComponentAlert;
use figma_tree::gen::checkbox::{CheckedType, ComponentCheckbox};
use figma_tree::gen::checkbox_generator::CheckboxGenerator;
use figma_tree::gen::component_generator::{
    Component, GeneratedComponent, GeneratorKind, Generators,
};
use figma_tree::schema::{ComponentProperty, ComponentPropertyType, Node, NodeType, PropertyValue};

fn instance(name: &str, props: Vec<(String, ComponentProperty)>) -> Node {
    Node {
        id: "1:1".to_string(),
        name: name.to_string(),
        visible: Some(true),
        node_type: NodeType::Instance,
        children: None,
        component_properties: Some(props),
        characters: None,
    }
}

fn text_prop(key: &str, value: &str) -> (String, ComponentProperty) {
    (
        key.to_string(),
        ComponentProperty::new(
            PropertyValue::Text(value.to_string()),
            ComponentPropertyType::Text,
        ),
    )
}

fn variant_prop(key: &str, value: &str) -> (String, ComponentProperty) {
    (
        key.to_string(),
        ComponentProperty::new(
            PropertyValue::Text(value.to_string()),
            ComponentPropertyType::Variant,
        ),
    )
}

fn bool_prop(key: &str, value: bool) -> (String, ComponentProperty) {
    (
        key.to_string(),
        ComponentProperty::new(PropertyValue::Bool(value), ComponentPropertyType::Boolean),
    )
}

fn registry() -> Generators {
    let mut generators = Generators::new();
    generators.register_generators();
    generators
}

#[test]
fn checked_state_parsing() {
    assert_eq!(CheckedType::from_text("true"), CheckedType::True);
    assert_eq!(CheckedType::from_text("false"), CheckedType::False);
    assert_eq!(CheckedType::from_text("indeterminate"), CheckedType::Indeterminate);
    assert_eq!(CheckedType::from_text("maybe"), CheckedType::False);
    assert_eq!(CheckedType::from_text(""), CheckedType::False);
    assert_eq!(CheckedType::from_text("True"), CheckedType::False);
}

#[test]
fn checkbox_defaults_on_empty_properties() {
    let node = instance("Checkbox", vec![]);
    let got = registry().gen_component(&node);
    match got {
        Some(GeneratedComponent::Checkbox(cb)) => {
            assert!(!cb.has_label);
            assert!(!cb.disabled);
            assert_eq!(cb.checked, CheckedType::False);
            assert!(!cb.dismissable);
            assert!(cb.label.is_none());
        },
        _ => panic!("expected a checkbox"),
    }
}

#[test]
fn checkbox_reads_declared_properties() {
    let node = instance(
        "Checkbox",
        vec![
            bool_prop("Label", true),
            variant_prop("State", "Disabled"),
            text_prop("Checked", "indeterminate"),
        ],
    );
    let got = registry().gen_component(&node);
    match got {
        Some(GeneratedComponent::Checkbox(cb)) => {
            assert!(cb.has_label);
            assert!(cb.disabled);
            assert_eq!(cb.checked, CheckedType::Indeterminate);
            assert!(!cb.dismissable);
        },
        _ => panic!("expected a checkbox"),
    }
}

#[test]
fn checkbox_label_comes_from_direct_children_only() {
    // The label is the text node's literal content, not its display name.
    let label_node = Node {
        id: "2:1".to_string(),
        name: "Label text".to_string(),
        visible: None,
        node_type: NodeType::Text,
        children: None,
        component_properties: None,
        characters: Some("Agree".to_string()),
    };
    let mut node = instance("Checkbox", vec![]);
    node.children = Some(vec![label_node]);
    let got = registry().gen_component(&node);
    match got {
        Some(GeneratedComponent::Checkbox(cb)) => {
            assert_eq!(cb.label, Some("Agree".to_string()));
        },
        _ => panic!("expected a checkbox"),
    }

    let deep_label = Node {
        id: "3:2".to_string(),
        name: "Too deep".to_string(),
        visible: None,
        node_type: NodeType::Text,
        children: None,
        component_properties: None,
        characters: Some("Unreachable".to_string()),
    };
    let wrapper = Node {
        id: "3:1".to_string(),
        name: "Wrapper".to_string(),
        visible: None,
        node_type: NodeType::Frame,
        children: Some(vec![deep_label]),
        component_properties: None,
        characters: None,
    };
    let mut nested = instance("Checkbox", vec![]);
    nested.children = Some(vec![wrapper]);
    let got = registry().gen_component(&nested);
    match got {
        Some(GeneratedComponent::Checkbox(cb)) => {
            assert!(cb.label.is_none());
        },
        _ => panic!("expected a checkbox"),
    }
}

#[test]
fn checkbox_label_is_no_value_without_text_content() {
    // A text child without literal content gives no label, even though it
    // has a display name.
    let empty_text = Node {
        id: "4:1".to_string(),
        name: "Label".to_string(),
        visible: None,
        node_type: NodeType::Text,
        children: None,
        component_properties: None,
        characters: None,
    };
    let mut node = instance("Checkbox", vec![]);
    node.children = Some(vec![empty_text]);
    let got = registry().gen_component(&node);
    match got {
        Some(GeneratedComponent::Checkbox(cb)) => {
            assert!(cb.label.is_none());
        },
        _ => panic!("expected a checkbox"),
    }
}

#[test]
fn get_name_from_children_respects_depth() {
    let text = Node {
        id: "5:2".to_string(),
        name: "Found".to_string(),
        visible: None,
        node_type: NodeType::Text,
        children: None,
        component_properties: None,
        characters: None,
    };
    let wrapper = Node {
        id: "5:1".to_string(),
        name: "Wrapper".to_string(),
        visible: None,
        node_type: NodeType::Frame,
        children: Some(vec![text]),
        component_properties: None,
        characters: None,
    };
    assert_eq!(
        CheckboxGenerator::get_name_from_children(&wrapper, NodeType::Text, 0, 1),
        Some("Found".to_string())
    );
    let mut top = instance("Checkbox", vec![]);
    top.children = Some(vec![wrapper]);
    assert_eq!(CheckboxGenerator::get_name_from_children(&top, NodeType::Text, 0, 1), None);
    assert_eq!(
        CheckboxGenerator::get_name_from_children(&top, NodeType::Text, 0, 2),
        Some("Found".to_string())
    );
}

#[test]
fn get_text_from_children_reads_characters() {
    let text = Node {
        id: "6:2".to_string(),
        name: "Some caption".to_string(),
        visible: None,
        node_type: NodeType::Text,
        children: None,
        component_properties: None,
        characters: Some("Literal".to_string()),
    };
    let wrapper = Node {
        id: "6:1".to_string(),
        name: "Wrapper".to_string(),
        visible: None,
        node_type: NodeType::Frame,
        children: Some(vec![text]),
        component_properties: None,
        characters: None,
    };
    assert_eq!(
        CheckboxGenerator::get_text_from_children(&wrapper, NodeType::Text, 0, 1),
        Some("Literal".to_string())
    );
    let mut top = instance("Checkbox", vec![]);
    top.children = Some(vec![wrapper]);
    assert_eq!(CheckboxGenerator::get_text_from_children(&top, NodeType::Text, 0, 1), None);
    assert_eq!(
        CheckboxGenerator::get_text_from_children(&top, NodeType::Text, 0, 2),
        Some("Literal".to_string())
    );
}

#[test]
fn alert_extraction_reads_properties() {
    let node = instance(
        "Alert.Inline",
        vec![
            text_prop("Message text", "Be careful"),
            variant_prop("Severity", "warning"),
            bool_prop("Title", true),
            bool_prop("Dismissable", true),
            bool_prop("has Actions", false),
        ],
    );
    let got = registry().gen_component(&node);
    match got {
        Some(GeneratedComponent::Alert(alert)) => {
            assert_eq!(alert.message, Some("Be careful".to_string()));
            assert_eq!(alert.severity, Some("warning".to_string()));
            assert!(alert.has_title);
            assert!(alert.dismissable);
            assert!(!alert.has_actions);
        },
        _ => panic!("expected an alert"),
    }
}

#[test]
fn alert_defaults_on_mistyped_properties() {
    // A boolean-tagged value under a text key and vice versa must coerce to
    // "no value", never to an error.
    let node = instance(
        "Alert.Inline",
        vec![
            (
                "Message text".to_string(),
                ComponentProperty::new(PropertyValue::Bool(true), ComponentPropertyType::Text),
            ),
            (
                "Title".to_string(),
                ComponentProperty::new(
                    PropertyValue::Text("yes".to_string()),
                    ComponentPropertyType::Boolean,
                ),
            ),
            (
                "Severity".to_string(),
                ComponentProperty::new(
                    PropertyValue::Text("hidden".to_string()),
                    ComponentPropertyType::InstanceSwap,
                ),
            ),
        ],
    );
    let got = registry().gen_component(&node);
    match got {
        Some(GeneratedComponent::Alert(alert)) => {
            assert!(alert.message.is_none());
            assert!(alert.severity.is_none());
            assert!(!alert.has_title);
        },
        _ => panic!("expected an alert"),
    }
}

#[test]
fn prefix_match_is_permissive() {
    let suffixed = instance("Alert.Inline", vec![variant_prop("Severity#variant1", "error")]);
    let got = registry().gen_component(&suffixed);
    match got {
        Some(GeneratedComponent::Alert(alert)) => {
            assert_eq!(alert.severity, Some("error".to_string()));
        },
        _ => panic!("expected an alert"),
    }

    // Substring-from-start, not delimiter-aware: "SeverityOther" is found
    // by a lookup for "Severity" too.
    let loose = instance("Alert.Inline", vec![variant_prop("SeverityOther", "info")]);
    let got = registry().gen_component(&loose);
    match got {
        Some(GeneratedComponent::Alert(alert)) => {
            assert_eq!(alert.severity, Some("info".to_string()));
        },
        _ => panic!("expected an alert"),
    }
}

#[test]
fn first_matching_property_wins() {
    let node = instance(
        "Alert.Inline",
        vec![variant_prop("Severity#a", "first"), variant_prop("Severity#b", "second")],
    );
    let got = registry().gen_component(&node);
    match got {
        Some(GeneratedComponent::Alert(alert)) => {
            assert_eq!(alert.severity, Some("first".to_string()));
        },
        _ => panic!("expected an alert"),
    }
}

#[test]
fn matcher_requires_exact_name_and_kind() {
    let wrong_name = instance("checkbox", vec![]);
    assert!(registry().gen_component(&wrong_name).is_none());
    let mut wrong_kind = instance("Checkbox", vec![]);
    wrong_kind.node_type = NodeType::Frame;
    assert!(registry().gen_component(&wrong_kind).is_none());
    let unknown = instance("Button", vec![]);
    assert!(registry().gen_component(&unknown).is_none());
}

#[test]
fn registration_order_decides() {
    let node = instance("Alert.Inline", vec![]);
    let mut only_checkbox = Generators::new();
    only_checkbox.register(GeneratorKind::Checkbox);
    assert!(only_checkbox.gen_component(&node).is_none());
    let mut both = Generators::new();
    both.register(GeneratorKind::Alert);
    both.register(GeneratorKind::Checkbox);
    assert!(matches!(both.gen_component(&node), Some(GeneratedComponent::Alert(_))));
    let empty = Generators::new();
    assert!(empty.gen_component(&node).is_none());
}

#[test]
fn component_names_and_links() {
    let alert = ComponentAlert::new();
    assert_eq!(alert.name(), "Alert");
    assert_eq!(alert.link(), "/mui-components-alerts-beta--docs");
    assert_eq!(
        alert.doc_link(),
        "https://rd-sprout.qliktech.com/sprout/?path=/docs//mui-components-alerts-beta--docs"
    );
    let checkbox = ComponentCheckbox::new();
    assert_eq!(checkbox.name(), "Checkbox");
    assert_eq!(checkbox.link(), "/mui-components-checkbox--docs");
    assert_eq!(
        checkbox.doc_link(),
        "https://rd-sprout.qliktech.com/sprout/?path=/docs//mui-components-checkbox--docs"
    );
}

#[test]
fn property_coercion_checks_the_tag() {
    let text = ComponentProperty::new(
        PropertyValue::Text("hello".to_string()),
        ComponentPropertyType::Text,
    );
    assert_eq!(text.as_text(), Some("hello".to_string()));
    assert_eq!(text.as_bool(), None);

    let variant = ComponentProperty::new(
        PropertyValue::Text("v".to_string()),
        ComponentPropertyType::Variant,
    );
    assert_eq!(variant.as_text(), Some("v".to_string()));

    let flag = ComponentProperty::new(PropertyValue::Bool(true), ComponentPropertyType::Boolean);
    assert_eq!(flag.as_bool(), Some(true));
    assert_eq!(flag.as_text(), None);

    let mismatched = ComponentProperty::new(
        PropertyValue::Other,
        ComponentPropertyType::Boolean,
    );
    assert_eq!(mismatched.as_bool(), None);
    assert_eq!(mismatched.as_text(), None);
}

#[test]
fn constructors_start_from_known_state() {
    let alert = ComponentAlert::new();
    assert!(alert.severity.is_none());
    assert!(alert.message.is_none());
    assert!(!alert.has_title);
    assert!(!alert.has_actions);
    assert!(!alert.dismissable);
    let checkbox = ComponentCheckbox::new();
    assert!(checkbox.label.is_none());
    assert!(!checkbox.has_label);
    assert!(!checkbox.disabled);
    assert_eq!(checkbox.checked, CheckedType::True);
    assert!(!checkbox.dismissable);
}
