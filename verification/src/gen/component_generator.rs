//! The matcher/extractor registry: an ordered list of component generators,
//! consulted in registration order; the first whose predicate accepts a node
//! wins, and its extractor's output is returned unchallenged.

use vstd::prelude::*;
use crate::gen::alert::ComponentAlert;
use crate::gen::alert_generator::{spec_alert_accepts, spec_gen_alert, AlertGenerator};
use crate::gen::checkbox::ComponentCheckbox;
use crate::gen::checkbox_generator::{spec_checkbox_accepts, spec_gen_checkbox, CheckboxGenerator};
use crate::schema::{ComponentProperty, Node, NodeType};
use crate::strutil::{is_prefix, str_starts_with};

verus! {

/// Where the generated documentation links are rooted.
pub open spec fn doc_root_link() -> Seq<char> {
    "https://rd-sprout.qliktech.com/sprout/?path=/docs"@
}

/// A recognized component: the closed set of structured descriptions the
/// registry can produce. Extending the catalogue means adding a variant
/// here and a matcher/extractor pair for it.
#[derive(Debug, Clone)]
pub enum GeneratedComponent {
    Alert(ComponentAlert),
    Checkbox(ComponentCheckbox),
}

/// A recognized component names itself and points into the component
/// documentation.
pub trait Component {
    spec fn spec_name(&self) -> Seq<char>;

    spec fn spec_link(&self) -> Seq<char>;

    fn name(&self) -> (r: String)
        ensures
            r@ == self.spec_name(),
    ;

    fn link(&self) -> (r: String)
        ensures
            r@ == self.spec_link(),
    ;

    fn doc_link(&self) -> (r: String)
        ensures
            r@ == doc_root_link() + seq!['/'] + self.spec_link(),
    ;
}

/// The documentation root, a slash, then the component's own link suffix.
pub fn make_doc_link(link: &str) -> (r: String)
    ensures
        r@ == doc_root_link() + seq!['/'] + link@,
{
    let mut s = String::from_str("https://rd-sprout.qliktech.com/sprout/?path=/docs");
    s.append("/");
    s.append(link);
    proof {
        reveal_strlit("/");
        assert(s@ =~= doc_root_link() + seq!['/'] + link@);
    }
    s
}

/// The first declared property, in document order, whose key starts with
/// `prefix`. The match is substring-from-start, not delimiter-aware, because
/// the remote tool may append variant suffixes to property keys.
pub open spec fn spec_first_prop_from(
    props: Seq<(String, ComponentProperty)>,
    prefix: Seq<char>,
    k: int,
) -> Option<ComponentProperty>
    decreases props.len() - k,
{
    if k < 0 || k >= props.len() {
        None
    } else if is_prefix(prefix, props[k].0@) {
        Some(props[k].1)
    } else {
        spec_first_prop_from(props, prefix, k + 1)
    }
}

/// The text of the first property keyed by `prefix`, if the node declares
/// properties, one matches, and its tagged value really is text.
pub open spec fn spec_prop_text(node: Node, prefix: Seq<char>) -> Option<String> {
    match node.component_properties {
        Some(props) => match spec_first_prop_from(props@, prefix, 0) {
            Some(p) => p.spec_as_text(),
            None => None,
        },
        None => None,
    }
}

/// The boolean of the first property keyed by `prefix`, if the node declares
/// properties, one matches, and its tagged value really is a boolean.
pub open spec fn spec_prop_bool(node: Node, prefix: Seq<char>) -> Option<bool> {
    match node.component_properties {
        Some(props) => match spec_first_prop_from(props@, prefix, 0) {
            Some(p) => p.spec_as_bool(),
            None => None,
        },
        None => None,
    }
}

/// `false` where no value was extracted: the defaulting rule for boolean
/// fields.
pub open spec fn opt_or_false(o: Option<bool>) -> bool {
    match o {
        Some(b) => b,
        None => false,
    }
}

fn first_prop_from<'a>(
    props: &'a Vec<(String, ComponentProperty)>,
    prefix: &str,
    k: usize,
) -> (r: Option<&'a ComponentProperty>)
    ensures
        match r {
            Some(p) => spec_first_prop_from(props@, prefix@, k as int) == Some(*p),
            None => spec_first_prop_from(props@, prefix@, k as int) is None,
        },
    decreases props@.len() - k,
{
    if k >= props.len() {
        None
    } else if str_starts_with(props[k].0.as_str(), prefix) {
        Some(&props[k].1)
    } else {
        first_prop_from(props, prefix, k + 1)
    }
}

/// Extract text from the first property whose key starts with `prefix`.
pub fn get_text_from_properties(node: &Node, prefix: &str) -> (r: Option<String>)
    ensures
        r == spec_prop_text(*node, prefix@),
{
    match &node.component_properties {
        Some(props) => match first_prop_from(props, prefix, 0) {
            Some(p) => p.as_text(),
            None => None,
        },
        None => None,
    }
}

/// Extract a boolean from the first property whose key starts with `prefix`.
pub fn get_bool_from_properties(node: &Node, prefix: &str) -> (r: Option<bool>)
    ensures
        r == spec_prop_bool(*node, prefix@),
{
    match &node.component_properties {
        Some(props) => match first_prop_from(props, prefix, 0) {
            Some(p) => p.as_bool(),
            None => None,
        },
        None => None,
    }
}

/// A matcher/extractor pair over document nodes. A matcher's predicate must
/// check the node's kind and its exact display name: a single character of
/// difference means "no match", silently.
pub trait ComponentGenerator {
    spec fn spec_accepts(&self, node: Node) -> bool;

    spec fn spec_extract(&self, node: Node) -> GeneratedComponent;

    fn is_instance_type(&self, node: &Node) -> (r: bool)
        ensures
            r == (node.node_type == NodeType::Instance),
    ;

    fn can_gen_component(&self, node: &Node) -> (r: bool)
        ensures
            r == self.spec_accepts(*node),
    ;

    fn gen_component(&self, node: &Node) -> (r: GeneratedComponent)
        ensures
            r == self.spec_extract(*node),
    ;
}

/// One entry of the fixed catalogue.
#[derive(Debug, Clone, Copy, PartialEq, Eq, Structural)]
pub enum GeneratorKind {
    Alert,
    Checkbox,
}

/// Whether the catalogue entry's predicate accepts the node.
pub open spec fn kind_accepts(g: GeneratorKind, node: Node) -> bool {
    match g {
        GeneratorKind::Alert => spec_alert_accepts(node),
        GeneratorKind::Checkbox => spec_checkbox_accepts(node),
    }
}

/// What the catalogue entry's extractor produces for an accepted node.
pub open spec fn kind_extract(g: GeneratorKind, node: Node) -> GeneratedComponent {
    match g {
        GeneratorKind::Alert => GeneratedComponent::Alert(spec_gen_alert(node)),
        GeneratorKind::Checkbox => GeneratedComponent::Checkbox(spec_gen_checkbox(node)),
    }
}

/// What consulting the registry tail `gens[k..]` yields: the first entry
/// that accepts the node wins; no scoring, no multi-match reporting.
pub open spec fn spec_registry_gen(gens: Seq<GeneratorKind>, node: Node, k: int) -> Option<
    GeneratedComponent,
>
    decreases gens.len() - k,
{
    if k < 0 || k >= gens.len() {
        None
    } else if kind_accepts(gens[k], node) {
        Some(kind_extract(gens[k], node))
    } else {
        spec_registry_gen(gens, node, k + 1)
    }
}

/// When two registered matchers both accept a node, only the one registered
/// first has its extractor's output returned: registration order is the
/// sole priority rule.
pub proof fn lemma_first_matcher_wins(gens: Seq<GeneratorKind>, node: Node, k: int)
    requires
        0 <= k < gens.len(),
        kind_accepts(gens[k], node),
        forall|t: int| 0 <= t < k ==> !kind_accepts(#[trigger] gens[t], node),
    ensures
        spec_registry_gen(gens, node, 0) == Some(kind_extract(gens[k], node)),
{
    lemma_registry_skip(gens, node, 0, k);
}

proof fn lemma_registry_skip(gens: Seq<GeneratorKind>, node: Node, i: int, k: int)
    requires
        0 <= i <= k < gens.len(),
        kind_accepts(gens[k], node),
        forall|t: int| i <= t < k ==> !kind_accepts(#[trigger] gens[t], node),
    ensures
        spec_registry_gen(gens, node, i) == Some(kind_extract(gens[k], node)),
    decreases k - i,
{
    if i < k {
        lemma_registry_skip(gens, node, i + 1, k);
    }
}

fn kind_can_gen(g: GeneratorKind, node: &Node) -> (r: bool)
    ensures
        r == kind_accepts(g, *node),
{
    match g {
        GeneratorKind::Alert => AlertGenerator::new().can_gen_component(node),
        GeneratorKind::Checkbox => CheckboxGenerator::new().can_gen_component(node),
    }
}

fn kind_gen(g: GeneratorKind, node: &Node) -> (r: GeneratedComponent)
    ensures
        r == kind_extract(g, *node),
{
    match g {
        GeneratorKind::Alert => AlertGenerator::new().gen_component(node),
        GeneratorKind::Checkbox => CheckboxGenerator::new().gen_component(node),
    }
}

fn gen_from(gens: &Vec<GeneratorKind>, node: &Node, k: usize) -> (r: Option<GeneratedComponent>)
    ensures
        r == spec_registry_gen(gens@, *node, k as int),
    decreases gens@.len() - k,
{
    if k >= gens.len() {
        None
    } else if kind_can_gen(gens[k], node) {
        Some(kind_gen(gens[k], node))
    } else {
        gen_from(gens, node, k + 1)
    }
}

/// The registry: the ordered catalogue of generators, consulted first to
/// last. Built explicitly at session start; there is no ambient global.
pub struct Generators {
    generators: Vec<GeneratorKind>,
}

impl Generators {
    /// The registration order, oldest first.
    pub closed spec fn spec_generators(&self) -> Seq<GeneratorKind> {
        self.generators@
    }

    pub fn new() -> (r: Generators)
        ensures
            r.spec_generators() == Seq::<GeneratorKind>::empty(),
    {
        Generators { generators: Vec::new() }
    }

    /// Append one matcher/extractor pair behind all earlier ones.
    pub fn register(&mut self, kind: GeneratorKind)
        ensures
            final(self).spec_generators() == old(self).spec_generators().push(kind),
    {
        self.generators.push(kind);
    }

    /// Register the full fixed catalogue, alert before checkbox.
    pub fn register_generators(&mut self)
        ensures
            final(self).spec_generators() == old(self).spec_generators().push(
                GeneratorKind::Alert,
            ).push(GeneratorKind::Checkbox),
    {
        self.register(GeneratorKind::Alert);
        self.register(GeneratorKind::Checkbox);
    }

    /// Consult the registered matchers in order; the first that accepts the
    /// node has its extractor run. A node no matcher accepts is simply not a
    /// recognized component.
    pub fn gen_component(&self, node: &Node) -> (r: Option<GeneratedComponent>)
        ensures
            r == spec_registry_gen(self.spec_generators(), *node, 0),
    {
        gen_from(&self.generators, node, 0)
    }
}

} // verus!
