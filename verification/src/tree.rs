//! The presentation tree: a UI-facing mirror of the document tree, built in
//! one pass, carrying per-node expansion state and two independent path
//! encodings — a UI path over presentation-node identifiers and a document
//! path over document-node identifiers. The two schemes are kept strictly
//! apart: the UI path addresses a presentation node for mutation, the
//! document path addresses the corresponding document node for lookup.

use vstd::prelude::*;
use crate::schema::{File, Node, NodeType as FigmaNodeType};
use crate::strutil::{
    find_seg_end, is_prefix, is_sep_extension, join_path, seg_count, seg_end, sep, str_eq,
    str_eq_range,
};

verus! {

/// The two discrete UI events a presentation node answers to.
#[derive(Debug, Clone, Copy, PartialEq, Eq, Structural)]
pub enum NodeMessage {
    Toggle,
    Select,
}

/// The coarse UI-facing classification of a node: a deliberate narrowing of
/// the document kinds, with everything unrecognized collapsing to `Unknown`.
#[derive(Debug, Clone, Copy, PartialEq, Eq, Structural)]
pub enum NodeType {
    Unknown,
    Canvas,
    Component,
    Instance,
    Frame,
    Text,
}

/// The narrowing from document kinds to UI kinds.
pub open spec fn coarse_kind(value: FigmaNodeType) -> NodeType {
    match value {
        FigmaNodeType::Canvas => NodeType::Canvas,
        FigmaNodeType::Instance => NodeType::Instance,
        FigmaNodeType::Frame => NodeType::Frame,
        FigmaNodeType::Text => NodeType::Text,
        FigmaNodeType::Component => NodeType::Component,
        _ => NodeType::Unknown,
    }
}

impl From<FigmaNodeType> for NodeType {
    fn from(value: FigmaNodeType) -> (r: NodeType) {
        match value {
            FigmaNodeType::Canvas => NodeType::Canvas,
            FigmaNodeType::Instance => NodeType::Instance,
            FigmaNodeType::Frame => NodeType::Frame,
            FigmaNodeType::Text => NodeType::Text,
            FigmaNodeType::Component => NodeType::Component,
            _ => NodeType::Unknown,
        }
    }
}

impl vstd::std_specs::convert::FromSpecImpl<FigmaNodeType> for NodeType {
    open spec fn obeys_from_spec() -> bool {
        true
    }

    open spec fn from_spec(value: FigmaNodeType) -> NodeType {
        coarse_kind(value)
    }
}

/// One node of the presentation tree. The display name and identifier are
/// copied from the document node at build time, not live-linked; the
/// expansion flag is the node's only mutable state.
#[verifier::ext_equal]
#[derive(Debug)]
pub struct TreeNode {
    pub name: String,
    pub node_type: NodeType,
    pub is_expanded: bool,
    pub children: Vec<TreeNode>,
    pub id: String,
    /// The UI path: ancestor presentation identifiers joined by the
    /// delimiter, without a root seed.
    pub id_paths: String,
    /// The document path: ancestor document identifiers joined by the
    /// delimiter, seeded with the document root's id.
    pub node_paths: String,
}

/// The mathematical value of a presentation node, with every string read as
/// its character sequence.
#[verifier::ext_equal]
pub ghost struct TreeView {
    pub name: Seq<char>,
    pub node_type: NodeType,
    pub is_expanded: bool,
    pub children: Seq<TreeView>,
    pub id: Seq<char>,
    pub id_paths: Seq<char>,
    pub node_paths: Seq<char>,
}

/// The view of a presentation node.
pub open spec fn view_of(t: TreeNode) -> TreeView
    decreases t,
{
    TreeView {
        name: t.name@,
        node_type: t.node_type,
        is_expanded: t.is_expanded,
        children: views_of(t.children@),
        id: t.id@,
        id_paths: t.id_paths@,
        node_paths: t.node_paths@,
    }
}

/// The views of a sequence of presentation nodes, elementwise.
pub open spec fn views_of(cs: Seq<TreeNode>) -> Seq<TreeView>
    decreases cs,
{
    if cs.len() == 0 {
        Seq::empty()
    } else {
        views_of(cs.drop_last()).push(view_of(cs.last()))
    }
}

impl View for TreeNode {
    type V = TreeView;

    open spec fn view(&self) -> TreeView {
        view_of(*self)
    }
}

/// `views_of` is the elementwise image of `view_of`.
pub proof fn lemma_views_of(cs: Seq<TreeNode>)
    ensures
        views_of(cs).len() == cs.len(),
        forall|i: int| 0 <= i < cs.len() ==> views_of(cs)[i] == view_of(cs[i]),
    decreases cs,
{
    if cs.len() > 0 {
        lemma_views_of(cs.drop_last());
    }
}

impl TreeNode {
    /// A freshly built node: collapsed, childless, its UI path the parent's
    /// UI path extended by its own identifier (or the identifier alone at
    /// the top level), its document path taken as handed in.
    pub fn new(
        name: String,
        node_type: NodeType,
        parent_path: String,
        id: String,
        node_paths: String,
    ) -> (r: TreeNode)
        ensures
            r.name == name,
            r.node_type == node_type,
            !r.is_expanded,
            r.children@ == Seq::<TreeNode>::empty(),
            r.id == id,
            r.node_paths == node_paths,
            r.id_paths@ == (if parent_path@.len() == 0 {
                id@
            } else {
                parent_path@ + seq![sep()] + id@
            }),
    {
        let id_paths = if parent_path.as_str().is_empty() {
            id.clone()
        } else {
            join_path(parent_path.as_str(), id.as_str())
        };
        TreeNode {
            id: id.clone(),
            name,
            node_type,
            is_expanded: false,
            children: Vec::new(),
            id_paths,
            node_paths,
        }
    }
}

/// What the builder makes of one document node under the given parent
/// paths: names and identifiers copied, the kind narrowed, every node
/// collapsed, children mirrored in document order (an absent children field
/// giving a terminal leaf), and both path schemes extended by this node's
/// identifier — the document path always seeded, the UI path starting bare
/// at the top level.
pub open spec fn spec_parse_node(
    node: Node,
    parent_path: Seq<char>,
    parent_node_paths: Seq<char>,
) -> TreeView
    decreases node,
{
    let id_paths = if parent_path.len() == 0 {
        node.id@
    } else {
        parent_path + seq![sep()] + node.id@
    };
    let node_paths = parent_node_paths + seq![sep()] + node.id@;
    TreeView {
        name: node.name@,
        node_type: coarse_kind(node.node_type),
        is_expanded: false,
        children: match node.children {
            Some(cs) => spec_parse_children(cs@, id_paths, node_paths),
            None => Seq::empty(),
        },
        id: node.id@,
        id_paths: id_paths,
        node_paths: node_paths,
    }
}

pub open spec fn spec_parse_children(
    cs: Seq<Node>,
    parent_path: Seq<char>,
    parent_node_paths: Seq<char>,
) -> Seq<TreeView>
    decreases cs,
{
    if cs.len() == 0 {
        Seq::empty()
    } else {
        spec_parse_children(cs.drop_last(), parent_path, parent_node_paths).push(
            spec_parse_node(cs.last(), parent_path, parent_node_paths),
        )
    }
}

/// `spec_parse_children` is the elementwise image of `spec_parse_node`.
pub proof fn lemma_parse_children_index(
    cs: Seq<Node>,
    parent_path: Seq<char>,
    parent_node_paths: Seq<char>,
)
    ensures
        spec_parse_children(cs, parent_path, parent_node_paths).len() == cs.len(),
        forall|i: int|
            0 <= i < cs.len() ==> spec_parse_children(cs, parent_path, parent_node_paths)[i]
                == spec_parse_node(cs[i], parent_path, parent_node_paths),
    decreases cs,
{
    if cs.len() > 0 {
        lemma_parse_children_index(cs.drop_last(), parent_path, parent_node_paths);
    }
}

/// Mirror one document node, in document order, as the builder's single
/// pass does.
pub fn parse_node(node: &Node, parent_path: String, parent_node_paths: String) -> (r: Result<
    TreeNode,
    String,
>)
    ensures
        r matches Ok(t) && t@ == spec_parse_node(*node, parent_path@, parent_node_paths@),
    decreases *node,
{
    let name = node.name.clone();
    let node_type = NodeType::from(node.node_type);
    let id = node.id.clone();
    let node_paths = join_path(parent_node_paths.as_str(), id.as_str());
    let mut tree_node = TreeNode::new(name, node_type, parent_path, id, node_paths);
    let ghost target = spec_parse_node(*node, parent_path@, parent_node_paths@);
    match &node.children {
        Some(children) => {
            let mut k: usize = 0;
            proof {
                assert(children@.subrange(0, 0) =~= Seq::<Node>::empty());
            }
            while k < children.len()
                invariant
                    k <= children@.len(),
                    tree_node.id_paths@ == target.id_paths,
                    tree_node.node_paths@ == target.node_paths,
                    tree_node.name@ == target.name,
                    tree_node.node_type == target.node_type,
                    !tree_node.is_expanded,
                    tree_node.id@ == target.id,
                    node.children matches Some(c) && c@ == children@,
                    target == spec_parse_node(*node, parent_path@, parent_node_paths@),
                    views_of(tree_node.children@) == spec_parse_children(
                        children@.subrange(0, k as int),
                        target.id_paths,
                        target.node_paths,
                    ),
                decreases children@.len() - k,
            {
                let child_res = parse_node(
                    &children[k],
                    tree_node.id_paths.clone(),
                    tree_node.node_paths.clone(),
                );
                match child_res {
                    Ok(child) => {
                        let ghost before = tree_node.children@;
                        tree_node.children.push(child);
                        proof {
                            assert(tree_node.children@.drop_last() =~= before);
                            assert(children@.subrange(0, k + 1 as int).drop_last()
                                =~= children@.subrange(0, k as int));
                            assert(children@.subrange(0, k + 1 as int).last() == children@[
                                k as int
                            ]);
                        }
                    },
                    Err(_) => {},
                }
                k = k + 1;
            }
            proof {
                assert(children@.subrange(0, children@.len() as int) =~= children@);
                assert(tree_node@ =~~= target);
            }
            Ok(tree_node)
        },
        None => {
            proof {
                assert(tree_node@ =~~= target);
            }
            Ok(tree_node)
        },
    }
}

/// Where a UI path leads inside a presentation tree: an exact match on the
/// node's own UI path ends the search; otherwise the search continues below
/// only when the target extends this node's UI path by the delimiter, and
/// then only into the first immediate child whose identifier equals the next
/// path segment — that choice is committed, with no backtracking.
pub open spec fn spec_find_child(t: TreeView, path: Seq<char>) -> Option<TreeView>
    decreases t,
{
    if t.id_paths == path {
        Some(t)
    } else if is_sep_extension(t.id_paths, path) {
        let j = seg_end(path, t.id_paths.len() as int + 1);
        let seg = path.subrange(t.id_paths.len() as int + 1, j);
        spec_find_in_kids(t.children, seg, path, 0)
    } else {
        None
    }
}

/// The committed descent: the first child in `cs[k..]` whose identifier is
/// `id` carries the search; later siblings are never tried.
pub open spec fn spec_find_in_kids(
    cs: Seq<TreeView>,
    id: Seq<char>,
    path: Seq<char>,
    k: int,
) -> Option<TreeView>
    decreases cs, cs.len() - k,
{
    if k < 0 || k >= cs.len() {
        None
    } else if cs[k].id == id {
        spec_find_child(cs[k], path)
    } else {
        spec_find_in_kids(cs, id, path, k + 1)
    }
}

/// The tree after toggling the node addressed by `path`: exactly that
/// node's expansion flag flips; a path that leads nowhere leaves the tree
/// unchanged.
pub open spec fn spec_toggle_child(t: TreeView, path: Seq<char>) -> TreeView
    decreases t,
{
    if t.id_paths == path {
        TreeView { is_expanded: !t.is_expanded, ..t }
    } else if is_sep_extension(t.id_paths, path) {
        let j = seg_end(path, t.id_paths.len() as int + 1);
        let seg = path.subrange(t.id_paths.len() as int + 1, j);
        TreeView { children: toggle_in_kids(t.children, seg, path, 0), ..t }
    } else {
        t
    }
}

pub open spec fn toggle_in_kids(
    cs: Seq<TreeView>,
    id: Seq<char>,
    path: Seq<char>,
    k: int,
) -> Seq<TreeView>
    decreases cs, cs.len() - k,
{
    if k < 0 || k >= cs.len() {
        cs
    } else if cs[k].id == id {
        cs.update(k, spec_toggle_child(cs[k], path))
    } else {
        toggle_in_kids(cs, id, path, k + 1)
    }
}

/// What a UI event does to the addressed node: `Toggle` flips its expansion
/// flag, `Select` changes nothing — selection is the trigger for component
/// recognition, not a state change.
pub open spec fn spec_apply(t: TreeView, path: Seq<char>, msg: NodeMessage) -> TreeView {
    match msg {
        NodeMessage::Toggle => spec_toggle_child(t, path),
        NodeMessage::Select => t,
    }
}

pub open spec fn spec_apply_kids(
    cs: Seq<TreeView>,
    id: Seq<char>,
    path: Seq<char>,
    msg: NodeMessage,
    k: int,
) -> Seq<TreeView> {
    match msg {
        NodeMessage::Toggle => toggle_in_kids(cs, id, path, k),
        NodeMessage::Select => cs,
    }
}

/// The expansion flag of the node a UI path addresses, if any.
pub open spec fn expanded_at(t: TreeView, path: Seq<char>) -> Option<bool> {
    match spec_find_child(t, path) {
        Some(v) => Some(v.is_expanded),
        None => None,
    }
}

pub proof fn lemma_views_of_update(cs: Seq<TreeNode>, k: int, x: TreeNode)
    requires
        0 <= k < cs.len(),
    ensures
        views_of(cs.update(k, x)) == views_of(cs).update(k, view_of(x)),
{
    lemma_views_of(cs);
    lemma_views_of(cs.update(k, x));
    assert(views_of(cs.update(k, x)) =~= views_of(cs).update(k, view_of(x)));
}

impl TreeNode {
    /// Follow a UI path down from this node. An exact match on this node's
    /// UI path succeeds at once; otherwise the search descends, through the
    /// child named by the next path segment, only when the target extends
    /// this node's path by the delimiter.
    pub fn find_child<'a>(&'a self, path: &str) -> (r: Option<&'a TreeNode>)
        ensures
            match r {
                Some(c) => spec_find_child(view_of(*self), path@) == Some(view_of(*c)),
                None => spec_find_child(view_of(*self), path@) is None,
            },
        decreases *self,
    {
        if str_eq(self.id_paths.as_str(), path) {
            Some(self)
        } else {
            let plen = self.id_paths.unicode_len();
            if plen < path.unicode_len() && str_eq_range(self.id_paths.as_str(), path, 0, plen)
                && path.get_char(plen) == '|' {
                let j = find_seg_end(path, plen + 1);
                find_kid(&self.children, path, plen + 1, j, 0)
            } else {
                None
            }
        }
    }

    /// Answer one UI event addressed at this node: flip the expansion flag
    /// for `Toggle`, change nothing for `Select`.
    pub fn update(&mut self, msg: NodeMessage)
        ensures
            msg == NodeMessage::Select ==> *final(self) == *old(self),
            msg == NodeMessage::Toggle ==> final(self).is_expanded == !old(self).is_expanded
                && final(self).name == old(self).name && final(self).node_type == old(
                self,
            ).node_type && final(self).children == old(self).children && final(self).id == old(
                self,
            ).id && final(self).id_paths == old(self).id_paths && final(self).node_paths == old(
                self,
            ).node_paths,
    {
        match msg {
            NodeMessage::Toggle => {
                self.is_expanded = !self.is_expanded;
            },
            NodeMessage::Select => {},
        }
    }

    /// Deliver one UI event to the node a UI path addresses, in place. This
    /// is the single authoritative write path into presentation state.
    /// Returns whether any node was addressed at all.
    pub fn update_at_path(&mut self, path: &str, msg: NodeMessage) -> (found: bool)
        ensures
            view_of(*final(self)) == spec_apply(view_of(*old(self)), path@, msg),
            found == (spec_find_child(view_of(*old(self)), path@) is Some),
        decreases *old(self),
    {
        if str_eq(self.id_paths.as_str(), path) {
            self.update(msg);
            proof {
                assert(view_of(*self) =~= spec_apply(view_of(*old(self)), path@, msg));
            }
            true
        } else {
            let plen = self.id_paths.unicode_len();
            if plen < path.unicode_len() && str_eq_range(self.id_paths.as_str(), path, 0, plen)
                && path.get_char(plen) == '|' {
                let j = find_seg_end(path, plen + 1);
                let found = apply_in_kids(&mut self.children, path, plen + 1, j, msg, 0);
                proof {
                    assert(view_of(*self) =~= spec_apply(view_of(*old(self)), path@, msg));
                }
                found
            } else {
                proof {
                    assert(view_of(*self) =~= spec_apply(view_of(*old(self)), path@, msg));
                }
                false
            }
        }
    }
}

/// The committed read-only descent through the children.
fn find_kid<'a>(cs: &'a Vec<TreeNode>, path: &str, i: usize, j: usize, k: usize) -> (r: Option<
    &'a TreeNode,
>)
    requires
        i <= j <= path@.len(),
    ensures
        match r {
            Some(c) => spec_find_in_kids(
                views_of(cs@),
                path@.subrange(i as int, j as int),
                path@,
                k as int,
            ) == Some(view_of(*c)),
            None => spec_find_in_kids(
                views_of(cs@),
                path@.subrange(i as int, j as int),
                path@,
                k as int,
            ) is None,
        },
    decreases cs@, cs@.len() - k,
{
    proof {
        lemma_views_of(cs@);
    }
    if k >= cs.len() {
        None
    } else if str_eq_range(cs[k].id.as_str(), path, i, j) {
        cs[k].find_child(path)
    } else {
        find_kid(cs, path, i, j, k + 1)
    }
}

/// The committed mutating descent through the children.
fn apply_in_kids(
    cs: &mut Vec<TreeNode>,
    path: &str,
    i: usize,
    j: usize,
    msg: NodeMessage,
    k: usize,
) -> (found: bool)
    requires
        i <= j <= path@.len(),
    ensures
        views_of(final(cs)@) == spec_apply_kids(
            views_of(old(cs)@),
            path@.subrange(i as int, j as int),
            path@,
            msg,
            k as int,
        ),
        found == (spec_find_in_kids(
            views_of(old(cs)@),
            path@.subrange(i as int, j as int),
            path@,
            k as int,
        ) is Some),
    decreases old(cs)@, old(cs)@.len() - k,
{
    proof {
        lemma_views_of(cs@);
    }
    if k >= cs.len() {
        false
    } else if str_eq_range(cs[k].id.as_str(), path, i, j) {
        let mut child = cs.remove(k);
        let found = child.update_at_path(path, msg);
        cs.insert(k, child);
        proof {
            assert(cs@ =~= old(cs)@.update(k as int, cs@[k as int]));
            lemma_views_of_update(old(cs)@, k as int, cs@[k as int]);
            assert(views_of(cs@) =~= spec_apply_kids(
                views_of(old(cs)@),
                path@.subrange(i as int, j as int),
                path@,
                msg,
                k as int,
            ));
        }
        found
    } else {
        apply_in_kids(cs, path, i, j, msg, k + 1)
    }
}

/// What the builder makes of a whole file: one mirrored tree per top-level
/// page, in document order; the UI paths start bare, the document paths are
/// seeded with the document root's id.
pub open spec fn spec_parse_file(file: File) -> Seq<TreeView> {
    match file.document.children {
        Some(pages) => spec_parse_children(pages@, Seq::empty(), file.document.id@),
        None => Seq::empty(),
    }
}

/// Build the presentation forest for a loaded file, one tree per page. A
/// pure transform: reloading a file means rebuilding the forest wholesale.
pub fn parse_file_to_tree(file: &File) -> (r: Result<Vec<TreeNode>, String>)
    ensures
        r matches Ok(v) && views_of(v@) == spec_parse_file(*file),
{
    let mut result: Vec<TreeNode> = Vec::new();
    let document_id = file.document.id.clone();
    match &file.document.children {
        Some(pages) => {
            let mut k: usize = 0;
            proof {
                assert(pages@.subrange(0, 0) =~= Seq::<Node>::empty());
            }
            while k < pages.len()
                invariant
                    k <= pages@.len(),
                    document_id@ == file.document.id@,
                    file.document.children matches Some(p) && p@ == pages@,
                    views_of(result@) == spec_parse_children(
                        pages@.subrange(0, k as int),
                        Seq::<char>::empty(),
                        file.document.id@,
                    ),
                decreases pages@.len() - k,
            {
                match parse_node(&pages[k], String::new(), document_id.clone()) {
                    Ok(page) => {
                        let ghost before = result@;
                        result.push(page);
                        proof {
                            assert(result@.drop_last() =~= before);
                            assert(pages@.subrange(0, k + 1 as int).drop_last() =~= pages@.subrange(
                                0,
                                k as int,
                            ));
                            assert(pages@.subrange(0, k + 1 as int).last() == pages@[k as int]);
                        }
                    },
                    Err(_) => {},
                }
                k = k + 1;
            }
            proof {
                assert(pages@.subrange(0, pages@.len() as int) =~= pages@);
            }
            Ok(result)
        },
        None => Ok(result),
    }
}

/// Well-formed document identifiers, throughout a subtree: nonempty and
/// free of the path delimiter. The path schemes only address nodes whose
/// identifiers cannot collide with the delimiter.
pub open spec fn ids_wf(node: Node) -> bool
    decreases node,
{
    &&& node.id@.len() > 0
    &&& (forall|k: int| 0 <= k < node.id@.len() ==> node.id@[k] != sep())
    &&& match node.children {
        Some(cs) => kids_ids_wf(cs@),
        None => true,
    }
}

pub open spec fn kids_ids_wf(cs: Seq<Node>) -> bool
    decreases cs,
{
    cs.len() == 0 || (ids_wf(cs.last()) && kids_ids_wf(cs.drop_last()))
}

proof fn lemma_kids_ids_wf_index(cs: Seq<Node>, k: int)
    requires
        kids_ids_wf(cs),
        0 <= k < cs.len(),
    ensures
        ids_wf(cs[k]),
    decreases cs,
{
    if k < cs.len() - 1 {
        lemma_kids_ids_wf_index(cs.drop_last(), k);
    }
}

/// The builder's paths are consistent: a node at depth `d` below a
/// top-level page root has a UI path of exactly `d + 1` segments, and every
/// node's UI path is a strict prefix of each of its children's UI paths.
pub open spec fn ui_paths_consistent(t: TreeView, depth: nat) -> bool
    decreases t,
{
    &&& seg_count(t.id_paths) == depth + 1
    &&& kids_consistent(t.children, t.id_paths, depth)
}

pub open spec fn kids_consistent(cs: Seq<TreeView>, parent: Seq<char>, depth: nat) -> bool
    decreases cs,
{
    cs.len() == 0 || {
        &&& is_prefix(parent, cs.last().id_paths)
        &&& parent.len() < cs.last().id_paths.len()
        &&& ui_paths_consistent(cs.last(), (depth + 1) as nat)
        &&& kids_consistent(cs.drop_last(), parent, depth)
    }
}

/// Builder path consistency: every presentation node the builder produces
/// has a UI path whose segment count is its depth from a top-level page
/// root plus one, and each node's UI path is a strict prefix of its
/// children's UI paths.
pub proof fn lemma_builder_path_consistency(
    node: Node,
    parent_path: Seq<char>,
    parent_node_paths: Seq<char>,
    depth: nat,
)
    requires
        ids_wf(node),
        parent_path.len() == 0 ==> depth == 0,
        parent_path.len() > 0 ==> seg_count(parent_path) == depth,
    ensures
        ui_paths_consistent(spec_parse_node(node, parent_path, parent_node_paths), depth),
    decreases node,
{
    let t = spec_parse_node(node, parent_path, parent_node_paths);
    if parent_path.len() == 0 {
        crate::strutil::lemma_seg_count_single(node.id@);
    } else {
        crate::strutil::lemma_seg_count_append(parent_path, node.id@);
    }
    match node.children {
        Some(cs) => {
            lemma_builder_kids(cs@, t.id_paths, t.node_paths, depth);
        },
        None => {},
    }
}

proof fn lemma_builder_kids(cs: Seq<Node>, pp: Seq<char>, pnp: Seq<char>, depth: nat)
    requires
        kids_ids_wf(cs),
        pp.len() > 0,
        seg_count(pp) == depth + 1,
    ensures
        kids_consistent(spec_parse_children(cs, pp, pnp), pp, depth),
    decreases cs,
{
    if cs.len() > 0 {
        lemma_builder_kids(cs.drop_last(), pp, pnp, depth);
        let c = spec_parse_node(cs.last(), pp, pnp);
        assert(is_prefix(pp, c.id_paths)) by {
            assert(c.id_paths.subrange(0, pp.len() as int) =~= pp);
        }
        lemma_builder_path_consistency(cs.last(), pp, pnp, (depth + 1) as nat);
        let r = spec_parse_children(cs, pp, pnp);
        assert(r.last() == c);
        assert(r.drop_last() =~= spec_parse_children(cs.drop_last(), pp, pnp));
    }
}

/// Builder path consistency for a whole file: each built page tree is
/// consistent from depth zero.
pub proof fn lemma_file_paths_consistent(file: File)
    requires
        match file.document.children {
            Some(pages) => kids_ids_wf(pages@),
            None => true,
        },
    ensures
        forall|k: int|
            0 <= k < spec_parse_file(file).len() ==> ui_paths_consistent(
                #[trigger] spec_parse_file(file)[k],
                0,
            ),
{
    match file.document.children {
        Some(pages) => {
            lemma_parse_children_index(pages@, Seq::empty(), file.document.id@);
            assert forall|k: int| 0 <= k < spec_parse_file(file).len() implies ui_paths_consistent(
                #[trigger] spec_parse_file(file)[k],
                0,
            ) by {
                lemma_kids_ids_wf_index(pages@, k);
                lemma_builder_path_consistency(pages@[k], Seq::empty(), file.document.id@, 0);
            }
        },
        None => {},
    }
}

/// The first child in `cs[k..]` whose identifier is `id`: the index the
/// committed descent selects.
pub open spec fn first_kid_index(cs: Seq<TreeView>, id: Seq<char>, k: int) -> Option<int>
    decreases cs.len() - k,
{
    if k < 0 || k >= cs.len() {
        None
    } else if cs[k].id == id {
        Some(k)
    } else {
        first_kid_index(cs, id, k + 1)
    }
}

proof fn lemma_fki_bounds(cs: Seq<TreeView>, id: Seq<char>, k: int)
    ensures
        match first_kid_index(cs, id, k) {
            Some(m) => k <= m < cs.len() && cs[m].id == id,
            None => true,
        },
    decreases cs.len() - k,
{
    if 0 <= k < cs.len() && cs[k].id != id {
        lemma_fki_bounds(cs, id, k + 1);
    }
}

proof fn lemma_fki_update(cs: Seq<TreeView>, id: Seq<char>, k: int, m: int, x: TreeView)
    requires
        0 <= m < cs.len(),
        x.id == cs[m].id,
    ensures
        first_kid_index(cs.update(m, x), id, k) == first_kid_index(cs, id, k),
    decreases cs.len() - k,
{
    if 0 <= k < cs.len() {
        if cs[k].id != id {
            lemma_fki_update(cs, id, k + 1, m, x);
        }
    }
}

proof fn lemma_toggle_kids_char(cs: Seq<TreeView>, id: Seq<char>, path: Seq<char>, k: int)
    ensures
        toggle_in_kids(cs, id, path, k) == (match first_kid_index(cs, id, k) {
            Some(m) => cs.update(m, spec_toggle_child(cs[m], path)),
            None => cs,
        }),
    decreases cs.len() - k,
{
    if 0 <= k < cs.len() && cs[k].id != id {
        lemma_toggle_kids_char(cs, id, path, k + 1);
    }
}

proof fn lemma_find_kids_char(cs: Seq<TreeView>, id: Seq<char>, path: Seq<char>, k: int)
    ensures
        spec_find_in_kids(cs, id, path, k) == (match first_kid_index(cs, id, k) {
            Some(m) => spec_find_child(cs[m], path),
            None => None::<TreeView>,
        }),
    decreases cs.len() - k,
{
    if 0 <= k < cs.len() && cs[k].id != id {
        lemma_find_kids_char(cs, id, path, k + 1);
    }
}

/// Toggling touches nothing but expansion flags: identifiers, paths, and
/// the tree's shape are all preserved.
pub proof fn lemma_toggle_meta(t: TreeView, path: Seq<char>)
    ensures
        spec_toggle_child(t, path).id == t.id,
        spec_toggle_child(t, path).id_paths == t.id_paths,
        spec_toggle_child(t, path).name == t.name,
        spec_toggle_child(t, path).node_paths == t.node_paths,
        spec_toggle_child(t, path).children.len() == t.children.len(),
        t.id_paths != path ==> spec_toggle_child(t, path).is_expanded == t.is_expanded,
        forall|i: int|
            0 <= i < t.children.len() ==> (#[trigger] spec_toggle_child(t, path).children[i]).id
                == t.children[i].id,
    decreases t,
{
    if t.id_paths == path {
    } else if is_sep_extension(t.id_paths, path) {
        let j = seg_end(path, t.id_paths.len() as int + 1);
        let seg = path.subrange(t.id_paths.len() as int + 1, j);
        lemma_toggle_kids_char(t.children, seg, path, 0);
        lemma_fki_bounds(t.children, seg, 0);
        match first_kid_index(t.children, seg, 0) {
            Some(m) => {
                lemma_toggle_meta(t.children[m], path);
            },
            None => {},
        }
    } else {
    }
}

/// Mutation idempotence: toggling the same UI path twice restores the tree
/// exactly — the addressed node's flag flips back, and nothing else was
/// touched either time.
pub proof fn lemma_toggle_twice(t: TreeView, path: Seq<char>)
    ensures
        spec_toggle_child(spec_toggle_child(t, path), path) == t,
    decreases t,
{
    let r1 = spec_toggle_child(t, path);
    if t.id_paths == path {
        assert(spec_toggle_child(r1, path) =~~= t);
    } else if is_sep_extension(t.id_paths, path) {
        let j = seg_end(path, t.id_paths.len() as int + 1);
        let seg = path.subrange(t.id_paths.len() as int + 1, j);
        let cs = t.children;
        lemma_toggle_kids_char(cs, seg, path, 0);
        lemma_fki_bounds(cs, seg, 0);
        match first_kid_index(cs, seg, 0) {
            Some(m) => {
                let x = spec_toggle_child(cs[m], path);
                lemma_toggle_meta(cs[m], path);
                lemma_fki_update(cs, seg, 0, m, x);
                lemma_toggle_kids_char(r1.children, seg, path, 0);
                lemma_toggle_twice(cs[m], path);
                assert(r1.children.update(m, spec_toggle_child(r1.children[m], path)) =~= cs);
                assert(spec_toggle_child(r1, path) =~~= t);
            },
            None => {
                assert(spec_toggle_child(r1, path) =~~= t);
            },
        }
    } else {
        assert(spec_toggle_child(r1, path) =~~= t);
    }
}

/// The frame rule for toggling: toggling path `p` never alters the
/// expansion flag of any node whose UI path is not `p`.
pub proof fn lemma_toggle_other(t: TreeView, p: Seq<char>, q: Seq<char>)
    requires
        p != q,
    ensures
        expanded_at(spec_toggle_child(t, p), q) == expanded_at(t, q),
    decreases t,
{
    let r = spec_toggle_child(t, p);
    lemma_toggle_meta(t, p);
    if t.id_paths == p {
        assert(expanded_at(r, q) == expanded_at(t, q));
    } else if is_sep_extension(t.id_paths, p) {
        let jp = seg_end(p, t.id_paths.len() as int + 1);
        let sp = p.subrange(t.id_paths.len() as int + 1, jp);
        let cs = t.children;
        lemma_toggle_kids_char(cs, sp, p, 0);
        lemma_fki_bounds(cs, sp, 0);
        if t.id_paths == q {
            assert(expanded_at(r, q) == expanded_at(t, q));
        } else if is_sep_extension(t.id_paths, q) {
            let jq = seg_end(q, t.id_paths.len() as int + 1);
            let sq = q.subrange(t.id_paths.len() as int + 1, jq);
            lemma_find_kids_char(cs, sq, q, 0);
            lemma_find_kids_char(r.children, sq, q, 0);
            match first_kid_index(cs, sp, 0) {
                Some(m) => {
                    let x = spec_toggle_child(cs[m], p);
                    lemma_toggle_meta(cs[m], p);
                    lemma_fki_update(cs, sq, 0, m, x);
                    lemma_fki_bounds(cs, sq, 0);
                    match first_kid_index(cs, sq, 0) {
                        Some(m2) => {
                            if m2 == m {
                                lemma_toggle_other(cs[m], p, q);
                            } else {
                                assert(r.children[m2] == cs[m2]);
                            }
                        },
                        None => {},
                    }
                },
                None => {},
            }
        } else {
            assert(expanded_at(r, q) == expanded_at(t, q));
        }
    } else {
        assert(expanded_at(r, q) == expanded_at(t, q));
    }
}

/// Collapsing preserves descendant state: expand `p`, expand a node at a
/// different path `c` below it, collapse `p`, re-expand `p` — the node at
/// `c` keeps the expansion flag it had before the collapse. Collapsing does
/// not reset descendants.
pub proof fn lemma_collapse_preserves_descendants(t: TreeView, p: Seq<char>, c: Seq<char>)
    requires
        p != c,
    ensures
        ({
            let expanded = spec_toggle_child(t, p);
            let child_expanded = spec_toggle_child(expanded, c);
            let collapsed = spec_toggle_child(child_expanded, p);
            let reexpanded = spec_toggle_child(collapsed, p);
            expanded_at(reexpanded, c) == expanded_at(child_expanded, c)
        }),
{
    let expanded = spec_toggle_child(t, p);
    let child_expanded = spec_toggle_child(expanded, c);
    let collapsed = spec_toggle_child(child_expanded, p);
    lemma_toggle_other(child_expanded, p, c);
    lemma_toggle_other(collapsed, p, c);
}

} // verus!
