//! Locating nodes inside the document tree: by a pipe-delimited path of
//! identifiers rooted at the document id, and by a bounded-depth search for
//! a child of a given kind and name.

use vstd::prelude::*;
use crate::schema::{File, Node, NodeType};
use crate::strutil::{find_seg_end, seg_end, str_eq_range};

verus! {

/// Where the search of `node` against the path tail `path[i..]` lands: the
/// node matches only if its id equals the segment starting at `i`; when
/// further segments remain, the children are tried in document order and
/// the first full match wins.
pub open spec fn find_in_node(node: Node, path: Seq<char>, i: int) -> Option<Node>
    decreases node,
{
    let j = seg_end(path, i);
    if 0 <= i <= path.len() && node.id@ == path.subrange(i, j) {
        if j >= path.len() {
            Some(node)
        } else {
            match node.children {
                Some(cs) => find_in_children(cs@, path, j + 1, 0),
                None => None,
            }
        }
    } else {
        None
    }
}

/// The first full match of `path[i..]` in `cs[k..]`, in document order.
pub open spec fn find_in_children(cs: Seq<Node>, path: Seq<char>, i: int, k: int) -> Option<Node>
    decreases cs, cs.len() - k,
{
    if k < 0 || k >= cs.len() {
        None
    } else {
        match find_in_node(cs[k], path, i) {
            Some(r) => Some(r),
            None => find_in_children(cs, path, i, k + 1),
        }
    }
}

/// What looking `path` up in `file` yields: the first path segment must
/// equal the document root's id, the remaining segments are matched against
/// the pages and their descendants. Any malformed path (empty, root
/// mismatch) simply finds nothing.
pub open spec fn spec_find_figma_node(file: File, path: Seq<char>) -> Option<Node> {
    let j = seg_end(path, 0);
    if file.document.id@ == path.subrange(0, j) {
        if j >= path.len() {
            None
        } else {
            match file.document.children {
                Some(pages) => find_in_children(pages@, path, j + 1, 0),
                None => None,
            }
        }
    } else {
        None
    }
}

/// Walk the document tree along a pipe-delimited path of node identifiers.
/// The first segment must equal the document root's id; each following
/// segment selects a descendant by identifier, siblings being tried in
/// document order. A miss is an expected outcome, not a fault.
pub fn find_figma_node<'a>(file: &'a File, paths: &str) -> (r: Option<&'a Node>)
    ensures
        match r {
            Some(n) => spec_find_figma_node(*file, paths@) == Some(*n),
            None => spec_find_figma_node(*file, paths@) is None,
        },
{
    let j = find_seg_end(paths, 0);
    if str_eq_range(file.document.id.as_str(), paths, 0, j) {
        if j < paths.unicode_len() {
            match &file.document.children {
                Some(pages) => find_node_in_children(pages, paths, j + 1, 0),
                None => None,
            }
        } else {
            None
        }
    } else {
        None
    }
}

/// The search of one node against the path tail that starts at `i`.
fn find_node<'a>(node: &'a Node, paths: &str, i: usize) -> (r: Option<&'a Node>)
    requires
        i <= paths@.len(),
    ensures
        match r {
            Some(n) => find_in_node(*node, paths@, i as int) == Some(*n),
            None => find_in_node(*node, paths@, i as int) is None,
        },
    decreases *node,
{
    let j = find_seg_end(paths, i);
    if str_eq_range(node.id.as_str(), paths, i, j) {
        if j == paths.unicode_len() {
            Some(node)
        } else {
            match &node.children {
                Some(cs) => find_node_in_children(cs, paths, j + 1, 0),
                None => None,
            }
        }
    } else {
        None
    }
}

/// The search of the children `cs[k..]` in document order.
fn find_node_in_children<'a>(cs: &'a Vec<Node>, paths: &str, i: usize, k: usize) -> (r: Option<
    &'a Node,
>)
    requires
        i <= paths@.len(),
    ensures
        match r {
            Some(n) => find_in_children(cs@, paths@, i as int, k as int) == Some(*n),
            None => find_in_children(cs@, paths@, i as int, k as int) is None,
        },
    decreases cs@, cs@.len() - k,
{
    if k >= cs.len() {
        None
    } else {
        match find_node(&cs[k], paths, i) {
            Some(n) => Some(n),
            None => find_node_in_children(cs, paths, i, k + 1),
        }
    }
}

/// The first descendant of `node`, within `max - cur` levels below it, whose
/// kind is `node_type` and whose name is `name`; children are inspected
/// before their own subtrees, in document order.
pub open spec fn spec_find_node_from_children(
    node: Node,
    name: Seq<char>,
    node_type: NodeType,
    cur: nat,
    max: nat,
) -> Option<Node>
    decreases node,
{
    match node.children {
        Some(cs) => if cur + 1 <= max {
            spec_find_from_list(cs@, name, node_type, (cur + 1) as nat, max, 0)
        } else {
            None
        },
        None => None,
    }
}

pub open spec fn spec_find_from_list(
    cs: Seq<Node>,
    name: Seq<char>,
    node_type: NodeType,
    cur: nat,
    max: nat,
    k: int,
) -> Option<Node>
    decreases cs, cs.len() - k,
{
    if k < 0 || k >= cs.len() {
        None
    } else if cs[k].node_type == node_type && cs[k].name@ == name {
        Some(cs[k])
    } else {
        match spec_find_node_from_children(cs[k], name, node_type, cur, max) {
            Some(r) => Some(r),
            None => spec_find_from_list(cs, name, node_type, cur, max, k + 1),
        }
    }
}

/// A bounded-depth search below `node` for the first descendant of the given
/// kind and name. `max_depth` counts levels below `node`; each node's
/// children are inspected before their own subtrees.
pub fn find_node_from_children<'a>(
    node: &'a Node,
    node_name: &str,
    node_type: NodeType,
    cur_depth: usize,
    max_depth: usize,
) -> (r: Option<&'a Node>)
    requires
        cur_depth < usize::MAX,
        max_depth < usize::MAX,
    ensures
        match r {
            Some(n) => spec_find_node_from_children(
                *node,
                node_name@,
                node_type,
                cur_depth as nat,
                max_depth as nat,
            ) == Some(*n),
            None => spec_find_node_from_children(
                *node,
                node_name@,
                node_type,
                cur_depth as nat,
                max_depth as nat,
            ) is None,
        },
    decreases *node,
{
    match &node.children {
        Some(children) => {
            let cur_depth = cur_depth + 1;
            if cur_depth <= max_depth {
                find_from_list(children, node_name, node_type, cur_depth, max_depth, 0)
            } else {
                None
            }
        },
        None => None,
    }
}

fn find_from_list<'a>(
    cs: &'a Vec<Node>,
    node_name: &str,
    node_type: NodeType,
    cur_depth: usize,
    max_depth: usize,
    k: usize,
) -> (r: Option<&'a Node>)
    requires
        cur_depth <= max_depth,
        max_depth < usize::MAX,
    ensures
        match r {
            Some(n) => spec_find_from_list(
                cs@,
                node_name@,
                node_type,
                cur_depth as nat,
                max_depth as nat,
                k as int,
            ) == Some(*n),
            None => spec_find_from_list(
                cs@,
                node_name@,
                node_type,
                cur_depth as nat,
                max_depth as nat,
                k as int,
            ) is None,
        },
    decreases cs@, cs@.len() - k,
{
    if k >= cs.len() {
        None
    } else {
        let child = &cs[k];
        if child.node_type == node_type && crate::strutil::str_eq(child.name.as_str(), node_name) {
            Some(child)
        } else {
            match find_node_from_children(child, node_name, node_type, cur_depth, max_depth) {
                Some(n) => Some(n),
                None => find_from_list(cs, node_name, node_type, cur_depth, max_depth, k + 1),
            }
        }
    }
}

} // verus!
