//! The decision core of the interactive session: given the presentation
//! forest, the loaded file and the registry, deliver one tree event — find
//! the addressed node among the page trees, recognize the underlying
//! document node as a component when the event is a selection, and apply
//! the event to the presentation node in place. The surrounding event loop,
//! rendering and I/O stay outside.

use vstd::prelude::*;
use crate::gen::component_generator::{
    GeneratedComponent, GeneratorKind, Generators, spec_registry_gen,
};
use crate::node_util::{find_figma_node, spec_find_figma_node};
use crate::schema::File;
use crate::tree::{
    lemma_views_of, lemma_views_of_update, spec_apply, spec_find_child, NodeMessage, TreeNode,
    TreeView, views_of,
};

verus! {

/// How the page forest changes when one event is delivered: the first page
/// tree in which the UI path leads anywhere takes the event; the rest stay
/// as they were.
pub open spec fn spec_handle_roots(
    pages: Seq<TreeView>,
    path: Seq<char>,
    msg: NodeMessage,
    k: int,
) -> Seq<TreeView>
    decreases pages.len() - k,
{
    if k < 0 || k >= pages.len() {
        pages
    } else if spec_find_child(pages[k], path) is Some {
        pages.update(k, spec_apply(pages[k], path, msg))
    } else {
        spec_handle_roots(pages, path, msg, k + 1)
    }
}

/// The component a selection event recognizes: the addressed presentation
/// node's document path is looked up in the file, and the registry is
/// consulted on the node found there. Every other outcome — no node
/// addressed, a stale document path, no matcher accepting — is no
/// component, silently.
pub open spec fn spec_selected_component(
    pages: Seq<TreeView>,
    file: File,
    gens: Seq<GeneratorKind>,
    path: Seq<char>,
    msg: NodeMessage,
    k: int,
) -> Option<GeneratedComponent>
    decreases pages.len() - k,
{
    if k < 0 || k >= pages.len() {
        None
    } else {
        match spec_find_child(pages[k], path) {
            Some(found) => if msg == NodeMessage::Select {
                match spec_find_figma_node(file, found.node_paths) {
                    Some(n) => spec_registry_gen(gens, n, 0),
                    None => None,
                }
            } else {
                None
            },
            None => spec_selected_component(pages, file, gens, path, msg, k + 1),
        }
    }
}

/// The session-level events the interactive shell dispatches on.
#[derive(Debug)]
pub enum Message {
    TokenChanged(String),
    FileIDChanged(String),
    TreeNode(String, NodeMessage),
    ParseJson,
    JsonIsParsed(Result<Vec<TreeNode>, String>),
}

/// What the surrounding shell owes after a step: nothing, the decode of the
/// stored file (I/O this core cannot do), or the announcement of a
/// recognized component.
#[derive(Debug)]
pub enum SessionAction {
    Idle,
    ParseRequested,
    Recognized(GeneratedComponent),
}

/// The whole interactive session's state: the credentials the shell
/// collects, the loaded file, its presentation forest, and the component
/// registry. The file is replaced wholesale on reload, together with the
/// forest built from it.
pub struct SessionState {
    pub token: String,
    pub file_id: String,
    pub root_node: Option<Vec<TreeNode>>,
    pub figma_file: Option<File>,
    pub generators: Generators,
}

/// What one step leaves of the state: credentials and parse results are
/// stored; a tree event is delivered to the first page tree its UI path
/// addresses; everything else stays untouched.
pub open spec fn spec_step_holds(pre: SessionState, post: SessionState, msg: Message) -> bool {
    match msg {
        Message::TokenChanged(token) => post == (SessionState { token, ..pre }),
        Message::FileIDChanged(file_id) => post == (SessionState { file_id, ..pre }),
        Message::ParseJson => post == pre,
        Message::JsonIsParsed(result) => match result {
            Ok(nodes) => post == (SessionState { root_node: Some(nodes), ..pre }),
            Err(_) => post == pre,
        },
        Message::TreeNode(path, m) => {
            &&& post.token == pre.token
            &&& post.file_id == pre.file_id
            &&& post.figma_file == pre.figma_file
            &&& post.generators == pre.generators
            &&& match pre.root_node {
                Some(roots) => {
                    &&& post.root_node is Some
                    &&& views_of(post.root_node->0@) == spec_handle_roots(
                        views_of(roots@),
                        path@,
                        m,
                        0,
                    )
                },
                None => post.root_node is None,
            }
        },
    }
}

/// The action one step owes the shell: a parse request for `ParseJson`, the
/// component a selection recognized, and nothing otherwise. A selection
/// with no file loaded recognizes nothing — a soft outcome, not a fault.
pub open spec fn spec_step_action(pre: SessionState, msg: Message) -> SessionAction {
    match msg {
        Message::ParseJson => SessionAction::ParseRequested,
        Message::TreeNode(path, m) => match (pre.root_node, pre.figma_file) {
            (Some(roots), Some(file)) => match spec_selected_component(
                views_of(roots@),
                file,
                pre.generators.spec_generators(),
                path@,
                m,
                0,
            ) {
                Some(c) => SessionAction::Recognized(c),
                None => SessionAction::Idle,
            },
            _ => SessionAction::Idle,
        },
        _ => SessionAction::Idle,
    }
}

/// Drive the session by one event. Pure bookkeeping and tree logic; the
/// shell performs whatever the returned action asks and feeds the outcome
/// back as a later event.
pub fn handle_message(state: &mut SessionState, msg: Message) -> (r: SessionAction)
    ensures
        spec_step_holds(*old(state), *final(state), msg),
        r == spec_step_action(*old(state), msg),
{
    match msg {
        Message::TokenChanged(token) => {
            state.token = token;
            SessionAction::Idle
        },
        Message::FileIDChanged(file_id) => {
            state.file_id = file_id;
            SessionAction::Idle
        },
        Message::ParseJson => SessionAction::ParseRequested,
        Message::JsonIsParsed(result) => {
            match result {
                Ok(nodes) => {
                    state.root_node = Some(nodes);
                },
                Err(_) => {},
            }
            SessionAction::Idle
        },
        Message::TreeNode(path, m) => {
            match (&mut state.root_node, &state.figma_file) {
                (Some(roots), Some(file)) => {
                    let component = handle_tree_message(
                        roots,
                        file,
                        &state.generators,
                        path.as_str(),
                        m,
                    );
                    match component {
                        Some(c) => SessionAction::Recognized(c),
                        None => SessionAction::Idle,
                    }
                },
                (Some(roots), None) => {
                    // No file is loaded: the event still reaches the tree,
                    // but nothing can be recognized.
                    apply_tree_event(roots, path.as_str(), m);
                    SessionAction::Idle
                },
                (None, _) => SessionAction::Idle,
            }
        },
    }
}

/// Deliver one tree event to the page forest. Returns the component a
/// selection recognized, if any.
pub fn handle_tree_message(
    roots: &mut Vec<TreeNode>,
    file: &File,
    generators: &Generators,
    path: &str,
    msg: NodeMessage,
) -> (r: Option<GeneratedComponent>)
    ensures
        views_of(final(roots)@) == spec_handle_roots(views_of(old(roots)@), path@, msg, 0),
        r == spec_selected_component(
            views_of(old(roots)@),
            *file,
            generators.spec_generators(),
            path@,
            msg,
            0,
        ),
{
    handle_from(roots, file, generators, path, msg, 0)
}

/// Deliver one tree event to the page forest without consulting the
/// registry: what a selection or toggle does to the trees when no file is
/// loaded.
pub fn apply_tree_event(roots: &mut Vec<TreeNode>, path: &str, msg: NodeMessage)
    ensures
        views_of(final(roots)@) == spec_handle_roots(views_of(old(roots)@), path@, msg, 0),
{
    apply_from(roots, path, msg, 0);
}

fn apply_from(roots: &mut Vec<TreeNode>, path: &str, msg: NodeMessage, k: usize)
    ensures
        views_of(final(roots)@) == spec_handle_roots(views_of(old(roots)@), path@, msg, k as int),
    decreases old(roots)@.len() - k,
{
    proof {
        lemma_views_of(roots@);
    }
    if k >= roots.len() {
    } else {
        let hit = roots[k].find_child(path).is_some();
        if hit {
            let mut page = roots.remove(k);
            let delivered = page.update_at_path(path, msg);
            proof {
                assert(delivered);
            }
            roots.insert(k, page);
            proof {
                assert(roots@ =~= old(roots)@.update(k as int, roots@[k as int]));
                lemma_views_of_update(old(roots)@, k as int, roots@[k as int]);
                assert(views_of(roots@) =~= spec_handle_roots(
                    views_of(old(roots)@),
                    path@,
                    msg,
                    k as int,
                ));
            }
        } else {
            apply_from(roots, path, msg, k + 1);
        }
    }
}

fn handle_from(
    roots: &mut Vec<TreeNode>,
    file: &File,
    generators: &Generators,
    path: &str,
    msg: NodeMessage,
    k: usize,
) -> (r: Option<GeneratedComponent>)
    ensures
        views_of(final(roots)@) == spec_handle_roots(views_of(old(roots)@), path@, msg, k as int),
        r == spec_selected_component(
            views_of(old(roots)@),
            *file,
            generators.spec_generators(),
            path@,
            msg,
            k as int,
        ),
    decreases old(roots)@.len() - k,
{
    proof {
        lemma_views_of(roots@);
    }
    if k >= roots.len() {
        None
    } else {
        let node_paths: Option<String> = match roots[k].find_child(path) {
            Some(found) => Some(found.node_paths.clone()),
            None => None,
        };
        match node_paths {
            Some(np) => {
                let component = if msg == NodeMessage::Select {
                    match find_figma_node(file, np.as_str()) {
                        Some(fnode) => generators.gen_component(fnode),
                        None => None,
                    }
                } else {
                    None
                };
                let mut page = roots.remove(k);
                let delivered = page.update_at_path(path, msg);
            proof {
                assert(delivered);
            }
                roots.insert(k, page);
                proof {
                    assert(roots@ =~= old(roots)@.update(k as int, roots@[k as int]));
                    lemma_views_of_update(old(roots)@, k as int, roots@[k as int]);
                    assert(views_of(roots@) =~= spec_handle_roots(
                        views_of(old(roots)@),
                        path@,
                        msg,
                        k as int,
                    ));
                }
                component
            },
            None => handle_from(roots, file, generators, path, msg, k + 1),
        }
    }
}

} // verus!
