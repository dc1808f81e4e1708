//! The alert matcher/extractor.

use vstd::prelude::*;
use crate::gen::alert::ComponentAlert;
use crate::gen::component_generator::{
    get_bool_from_properties, get_text_from_properties, make_doc_link, opt_or_false, Component,
    ComponentGenerator, GeneratedComponent, spec_prop_bool, spec_prop_text,
};
use crate::schema::{Node, NodeType};
use crate::strutil::str_eq;

verus! {

/// An alert node: an instance named exactly `Alert.Inline`.
pub open spec fn spec_alert_accepts(node: Node) -> bool {
    node.node_type == NodeType::Instance && node.name@ == "Alert.Inline"@
}

/// What the alert extractor reads: the message and severity texts, and
/// three boolean flags, each defaulting when absent or mistyped.
pub open spec fn spec_gen_alert(node: Node) -> ComponentAlert {
    ComponentAlert {
        message: spec_prop_text(node, "Message text"@),
        severity: spec_prop_text(node, "Severity"@),
        has_title: opt_or_false(spec_prop_bool(node, "Title"@)),
        has_actions: opt_or_false(spec_prop_bool(node, "has Actions"@)),
        dismissable: opt_or_false(spec_prop_bool(node, "Dismissable"@)),
    }
}

pub struct AlertGenerator {}

impl AlertGenerator {
    pub fn new() -> (r: AlertGenerator) {
        AlertGenerator {  }
    }
}

impl ComponentGenerator for AlertGenerator {
    open spec fn spec_accepts(&self, node: Node) -> bool {
        spec_alert_accepts(node)
    }

    open spec fn spec_extract(&self, node: Node) -> GeneratedComponent {
        GeneratedComponent::Alert(spec_gen_alert(node))
    }

    fn is_instance_type(&self, node: &Node) -> (r: bool) {
        node.node_type == NodeType::Instance
    }

    fn can_gen_component(&self, node: &Node) -> (r: bool) {
        self.is_instance_type(node) && str_eq(node.name.as_str(), "Alert.Inline")
    }

    fn gen_component(&self, node: &Node) -> (r: GeneratedComponent) {
        let mut alert = ComponentAlert::new();
        alert.message = get_text_from_properties(node, "Message text");
        alert.severity = get_text_from_properties(node, "Severity");
        alert.has_title = match get_bool_from_properties(node, "Title") {
            Some(b) => b,
            None => false,
        };
        alert.dismissable = match get_bool_from_properties(node, "Dismissable") {
            Some(b) => b,
            None => false,
        };
        alert.has_actions = match get_bool_from_properties(node, "has Actions") {
            Some(b) => b,
            None => false,
        };
        GeneratedComponent::Alert(alert)
    }
}

impl Component for ComponentAlert {
    open spec fn spec_name(&self) -> Seq<char> {
        "Alert"@
    }

    open spec fn spec_link(&self) -> Seq<char> {
        "/mui-components-alerts-beta--docs"@
    }

    fn name(&self) -> (r: String) {
        String::from_str("Alert")
    }

    fn link(&self) -> (r: String) {
        String::from_str("/mui-components-alerts-beta--docs")
    }

    fn doc_link(&self) -> (r: String) {
        make_doc_link("/mui-components-alerts-beta--docs")
    }
}

} // verus!
