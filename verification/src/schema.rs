//! The document model: an immutable tree of design-file nodes, decoded from
//! the remote file by an outside collaborator and handed in as plain values.

use vstd::prelude::*;

verus! {

/// The kind of a document node, as the remote design tool declares it.
/// The model keeps the full closed set even though the presentation layer
/// narrows it to a handful of coarse kinds.
#[derive(Debug, Clone, Copy, PartialEq, Eq, Structural)]
pub enum NodeType {
    Document,
    Canvas,
    Frame,
    Group,
    Vector,
    BooleanOperation,
    Star,
    Line,
    Ellipse,
    RegularPolygon,
    Rectangle,
    Text,
    Slice,
    Component,
    ComponentSet,
    Instance,
    Sticky,
    ShapeWithText,
    Connector,
    Section,
}

/// The type tag of a declared component property.
#[derive(Debug, Clone, Copy, PartialEq, Eq, Structural)]
pub enum ComponentPropertyType {
    Boolean,
    Variant,
    Text,
    InstanceSwap,
}

/// The runtime shape of a declared property value. The tag of the owning
/// [`ComponentProperty`] says which shape is expected; when the two disagree
/// the extraction code yields "no value" rather than an error.
#[derive(Debug, Clone)]
pub enum PropertyValue {
    Bool(bool),
    Text(String),
    /// Any shape the extraction code never reads (numbers, objects, ...).
    Other,
}

/// A declared component property: a value together with its type tag.
#[derive(Debug, Clone)]
pub struct ComponentProperty {
    pub value: PropertyValue,
    pub value_type: ComponentPropertyType,
}

impl ComponentProperty {
    /// The text carried by this property, when the tag allows text and the
    /// value really is text; `None` otherwise.
    pub open spec fn spec_as_text(&self) -> Option<String> {
        match self.value_type {
            ComponentPropertyType::Variant | ComponentPropertyType::Text => {
                match self.value {
                    PropertyValue::Text(ref s) => Some(*s),
                    _ => None,
                }
            },
            _ => None,
        }
    }

    /// The boolean carried by this property, when the tag is Boolean and the
    /// value really is a boolean; `None` otherwise.
    pub open spec fn spec_as_bool(&self) -> Option<bool> {
        match self.value_type {
            ComponentPropertyType::Boolean => {
                match self.value {
                    PropertyValue::Bool(b) => Some(b),
                    _ => None,
                }
            },
            _ => None,
        }
    }

    pub fn new(value: PropertyValue, value_type: ComponentPropertyType) -> (r: ComponentProperty)
        ensures
            r.value_type == value_type,
            r == (ComponentProperty { value, value_type }),
    {
        ComponentProperty { value, value_type }
    }

    /// Coerce to text as the extraction rules ask: the tag decides, a
    /// mismatched shape gives `None`.
    pub fn as_text(&self) -> (r: Option<String>)
        ensures
            r == self.spec_as_text(),
    {
        match self.value_type {
            ComponentPropertyType::Variant | ComponentPropertyType::Text => {
                match &self.value {
                    PropertyValue::Text(s) => Some(s.clone()),
                    _ => None,
                }
            },
            _ => None,
        }
    }

    /// Coerce to a boolean as the extraction rules ask: the tag decides, a
    /// mismatched shape gives `None`.
    pub fn as_bool(&self) -> (r: Option<bool>)
        ensures
            r == self.spec_as_bool(),
    {
        match self.value_type {
            ComponentPropertyType::Boolean => {
                match &self.value {
                    PropertyValue::Bool(b) => Some(*b),
                    _ => None,
                }
            },
            _ => None,
        }
    }
}

/// One node of the document tree.
///
/// A node's kind constrains which optional fields are populated, but the
/// model does not enforce this: every reader handles an all-absent node.
/// `children` absent means "this node kind never materializes children";
/// it is distinct from an empty child list.
#[derive(Debug)]
pub struct Node {
    pub id: String,
    pub name: String,
    pub visible: Option<bool>,
    pub node_type: NodeType,
    pub children: Option<Vec<Node>>,
    /// Declared properties in document order, keyed by property name.
    pub component_properties: Option<Vec<(String, ComponentProperty)>>,
    pub characters: Option<String>,
}

/// A loaded document file: the document root (whose children are the pages),
/// a display name and a format version string.
#[derive(Debug)]
pub struct File {
    pub document: Node,
    pub name: String,
    pub version: String,
}

} // verus!
