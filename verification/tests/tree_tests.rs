use figma_tree::node_util::{find_figma_node, find_node_from_children};
use figma_tree::schema::{File, Node, NodeType};
use figma_tree::session::{handle_message, handle_tree_message, Message, SessionAction, SessionState};
use figma_tree::tree::{parse_file_to_tree, NodeMessage, NodeType as UiNodeType, TreeNode};
use figma_tree::gen::component_generator::{GeneratedComponent, Generators};

fn leaf(id: &str, name: &str, node_type: NodeType) -> Node {
    Node {
        id: id.to_string(),
        name: name.to_string(),
        visible: None,
        node_type,
        children: None,
        component_properties: None,
        characters: None,
    }
}

fn branch(id: &str, name: &str, node_type: NodeType, children: Vec<Node>) -> Node {
    Node {
        id: id.to_string(),
        name: name.to_string(),
        visible: Some(true),
        node_type,
        children: Some(children),
        component_properties: None,
        characters: None,
    }
}

fn sample_file() -> File {
    let b = leaf("B", "Inner frame", NodeType::Frame);
    let c = leaf("C", "Some text", NodeType::Text);
    let a = branch("A", "Page one", NodeType::Canvas, vec![b, c]);
    let root = branch("R", "Document", NodeType::Document, vec![a]);
    File { document: root, name: "Demo".to_string(), version: "1".to_string() }
}

#[test]
fn locate_round_trip() {
    let file = sample_file();
    let found = find_figma_node(&file, "R|A|B");
    assert!(found.is_some());
    let node = found.unwrap();
    assert_eq!(node.id, "B");
    assert_eq!(node.name, "Inner frame");
    assert!(find_figma_node(&file, "R|A|X").is_none());
}

#[test]
fn locate_rejects_malformed_paths() {
    let file = sample_file();
    assert!(find_figma_node(&file, "").is_none());
    assert!(find_figma_node(&file, "Q|A|B").is_none());
    assert!(find_figma_node(&file, "R").is_none());
    assert!(find_figma_node(&file, "R|B").is_none());
}

#[test]
fn locate_takes_first_match_in_document_order() {
    let first = branch("A", "First", NodeType::Canvas, vec![leaf("B", "One", NodeType::Frame)]);
    let second = branch("A", "Second", NodeType::Canvas, vec![leaf("B", "Two", NodeType::Frame)]);
    let root = branch("R", "Doc", NodeType::Document, vec![first, second]);
    let file = File { document: root, name: "d".to_string(), version: "0".to_string() };
    let node = find_figma_node(&file, "R|A|B").unwrap();
    assert_eq!(node.name, "One");
}

#[test]
fn builder_produces_parallel_paths() {
    let file = sample_file();
    let pages = parse_file_to_tree(&file).unwrap();
    assert_eq!(pages.len(), 1);
    let page = &pages[0];
    assert_eq!(page.id, "A");
    assert_eq!(page.id_paths, "A");
    assert_eq!(page.node_paths, "R|A");
    assert_eq!(page.children.len(), 2);
    assert_eq!(page.children[0].id_paths, "A|B");
    assert_eq!(page.children[0].node_paths, "R|A|B");
    assert_eq!(page.children[1].id_paths, "A|C");
    assert_eq!(page.children[1].node_paths, "R|A|C");
}

#[test]
fn builder_narrows_kinds_and_collapses() {
    let b = leaf("B", "Shape", NodeType::Rectangle);
    let a = branch("A", "Page", NodeType::Canvas, vec![b]);
    let root = branch("R", "Doc", NodeType::Document, vec![a]);
    let file = File { document: root, name: "d".to_string(), version: "0".to_string() };
    let pages = parse_file_to_tree(&file).unwrap();
    let page = &pages[0];
    assert!(matches!(page.node_type, UiNodeType::Canvas));
    assert!(!page.is_expanded);
    assert!(matches!(page.children[0].node_type, UiNodeType::Unknown));
    assert!(!page.children[0].is_expanded);
    assert!(page.children[0].children.is_empty());
}

#[test]
fn find_child_follows_ui_paths() {
    let file = sample_file();
    let pages = parse_file_to_tree(&file).unwrap();
    let page = &pages[0];
    let found = page.find_child("A|C").unwrap();
    assert_eq!(found.id, "C");
    assert_eq!(found.node_paths, "R|A|C");
    assert!(page.find_child("A|X").is_none());
    let self_match = page.find_child("A").unwrap();
    assert_eq!(self_match.id, "A");
}

#[test]
fn find_child_needs_delimiter_after_prefix() {
    // "12" must not match as a prefix of "123".
    let child = leaf("3", "Child", NodeType::Frame);
    let page = branch("12", "Page", NodeType::Canvas, vec![child]);
    let root = branch("R", "Doc", NodeType::Document, vec![page]);
    let file = File { document: root, name: "d".to_string(), version: "0".to_string() };
    let pages = parse_file_to_tree(&file).unwrap();
    assert!(pages[0].find_child("123").is_none());
    assert!(pages[0].find_child("12|3").is_some());
}

#[test]
fn toggle_twice_restores_flag() {
    let file = sample_file();
    let mut pages = parse_file_to_tree(&file).unwrap();
    let page = &mut pages[0];
    assert!(!page.is_expanded);
    assert!(page.update_at_path("A", NodeMessage::Toggle));
    assert!(page.is_expanded);
    assert!(page.update_at_path("A", NodeMessage::Toggle));
    assert!(!page.is_expanded);
}

#[test]
fn toggle_leaves_other_nodes_alone() {
    let file = sample_file();
    let mut pages = parse_file_to_tree(&file).unwrap();
    let page = &mut pages[0];
    assert!(page.update_at_path("A|B", NodeMessage::Toggle));
    assert!(!page.is_expanded);
    assert!(page.children[0].is_expanded);
    assert!(!page.children[1].is_expanded);
}

#[test]
fn toggle_missing_path_changes_nothing() {
    let file = sample_file();
    let mut pages = parse_file_to_tree(&file).unwrap();
    let page = &mut pages[0];
    assert!(!page.update_at_path("A|X", NodeMessage::Toggle));
    assert!(!page.is_expanded);
    assert!(!page.children[0].is_expanded);
    assert!(!page.children[1].is_expanded);
}

#[test]
fn collapse_preserves_descendant_state() {
    let c = leaf("C", "Grandchild", NodeType::Frame);
    let b = branch("B", "Child", NodeType::Frame, vec![c]);
    let a = branch("A", "Page", NodeType::Canvas, vec![b]);
    let root = branch("R", "Doc", NodeType::Document, vec![a]);
    let file = File { document: root, name: "d".to_string(), version: "0".to_string() };
    let mut pages = parse_file_to_tree(&file).unwrap();
    let page = &mut pages[0];
    assert!(page.update_at_path("A", NodeMessage::Toggle));
    assert!(page.update_at_path("A|B", NodeMessage::Toggle));
    assert!(page.update_at_path("A", NodeMessage::Toggle));
    assert!(!page.is_expanded);
    assert!(page.update_at_path("A", NodeMessage::Toggle));
    assert!(page.is_expanded);
    assert!(page.children[0].is_expanded);
}

#[test]
fn select_is_a_state_noop() {
    let file = sample_file();
    let mut pages = parse_file_to_tree(&file).unwrap();
    let page = &mut pages[0];
    assert!(page.update_at_path("A", NodeMessage::Select));
    assert!(!page.is_expanded);
    let mut node = TreeNode::new(
        "n".to_string(),
        UiNodeType::Frame,
        "".to_string(),
        "X".to_string(),
        "R|X".to_string(),
    );
    node.update(NodeMessage::Select);
    assert!(!node.is_expanded);
    node.update(NodeMessage::Toggle);
    assert!(node.is_expanded);
}

#[test]
fn tree_node_new_builds_paths() {
    let top = TreeNode::new(
        "Page".to_string(),
        UiNodeType::Canvas,
        "".to_string(),
        "A".to_string(),
        "R|A".to_string(),
    );
    assert_eq!(top.id_paths, "A");
    assert!(!top.is_expanded);
    assert!(top.children.is_empty());
    let below = TreeNode::new(
        "Child".to_string(),
        UiNodeType::Frame,
        "A".to_string(),
        "B".to_string(),
        "R|A|B".to_string(),
    );
    assert_eq!(below.id_paths, "A|B");
    assert_eq!(below.node_paths, "R|A|B");
}

#[test]
fn find_node_from_children_respects_depth() {
    let deep = leaf("D", "Deep", NodeType::Text);
    let mid = branch("M", "Mid", NodeType::Frame, vec![deep]);
    let top = branch("T", "Top", NodeType::Frame, vec![mid]);
    let direct = find_node_from_children(&top, "Mid", NodeType::Frame, 0, 1);
    assert!(direct.is_some());
    assert_eq!(direct.unwrap().id, "M");
    assert!(find_node_from_children(&top, "Deep", NodeType::Text, 0, 1).is_none());
    let two_levels = find_node_from_children(&top, "Deep", NodeType::Text, 0, 2);
    assert!(two_levels.is_some());
    assert_eq!(two_levels.unwrap().id, "D");
}

#[test]
fn session_select_recognizes_component() {
    let checkbox = leaf("B", "Checkbox", NodeType::Instance);
    let a = branch("A", "Page", NodeType::Canvas, vec![checkbox]);
    let root = branch("R", "Doc", NodeType::Document, vec![a]);
    let file = File { document: root, name: "d".to_string(), version: "0".to_string() };
    let mut pages = parse_file_to_tree(&file).unwrap();
    let mut generators = Generators::new();
    generators.register_generators();
    let got = handle_tree_message(&mut pages, &file, &generators, "A|B", NodeMessage::Select);
    assert!(matches!(got, Some(GeneratedComponent::Checkbox(_))));
    assert!(!pages[0].is_expanded);
}

#[test]
fn session_state_machine_steps() {
    let mut generators = Generators::new();
    generators.register_generators();
    let mut state = SessionState {
        token: String::new(),
        file_id: String::new(),
        root_node: Some(Vec::new()),
        figma_file: None,
        generators,
    };
    assert!(matches!(
        handle_message(&mut state, Message::TokenChanged("secret".to_string())),
        SessionAction::Idle
    ));
    assert_eq!(state.token, "secret");
    assert!(matches!(
        handle_message(&mut state, Message::FileIDChanged("abc".to_string())),
        SessionAction::Idle
    ));
    assert_eq!(state.file_id, "abc");
    assert!(matches!(
        handle_message(&mut state, Message::ParseJson),
        SessionAction::ParseRequested
    ));

    let checkbox = leaf("B", "Checkbox", NodeType::Instance);
    let a = branch("A", "Page", NodeType::Canvas, vec![checkbox]);
    let root = branch("R", "Doc", NodeType::Document, vec![a]);
    let file = File { document: root, name: "d".to_string(), version: "0".to_string() };
    let parsed = parse_file_to_tree(&file);
    state.figma_file = Some(file);
    assert!(matches!(
        handle_message(&mut state, Message::JsonIsParsed(parsed)),
        SessionAction::Idle
    ));
    assert_eq!(state.root_node.as_ref().unwrap().len(), 1);

    let got = handle_message(
        &mut state,
        Message::TreeNode("A|B".to_string(), NodeMessage::Select),
    );
    assert!(matches!(got, SessionAction::Recognized(GeneratedComponent::Checkbox(_))));

    let got = handle_message(
        &mut state,
        Message::TreeNode("A".to_string(), NodeMessage::Toggle),
    );
    assert!(matches!(got, SessionAction::Idle));
    assert!(state.root_node.as_ref().unwrap()[0].is_expanded);
}

#[test]
fn session_event_without_file_still_toggles() {
    let checkbox = leaf("B", "Checkbox", NodeType::Instance);
    let a = branch("A", "Page", NodeType::Canvas, vec![checkbox]);
    let root = branch("R", "Doc", NodeType::Document, vec![a]);
    let file = File { document: root, name: "d".to_string(), version: "0".to_string() };
    let pages = parse_file_to_tree(&file).unwrap();
    let mut generators = Generators::new();
    generators.register_generators();
    let mut state = SessionState {
        token: String::new(),
        file_id: String::new(),
        root_node: Some(pages),
        figma_file: None,
        generators,
    };
    let got = handle_message(
        &mut state,
        Message::TreeNode("A".to_string(), NodeMessage::Toggle),
    );
    assert!(matches!(got, SessionAction::Idle));
    assert!(state.root_node.as_ref().unwrap()[0].is_expanded);
    // A selection with no file loaded recognizes nothing.
    let got = handle_message(
        &mut state,
        Message::TreeNode("A|B".to_string(), NodeMessage::Select),
    );
    assert!(matches!(got, SessionAction::Idle));
}

#[test]
fn session_toggle_expands_without_component() {
    let checkbox = leaf("B", "Checkbox", NodeType::Instance);
    let a = branch("A", "Page", NodeType::Canvas, vec![checkbox]);
    let root = branch("R", "Doc", NodeType::Document, vec![a]);
    let file = File { document: root, name: "d".to_string(), version: "0".to_string() };
    let mut pages = parse_file_to_tree(&file).unwrap();
    let mut generators = Generators::new();
    generators.register_generators();
    let got = handle_tree_message(&mut pages, &file, &generators, "A", NodeMessage::Toggle);
    assert!(got.is_none());
    assert!(pages[0].is_expanded);
    let missing = handle_tree_message(&mut pages, &file, &generators, "A|Z", NodeMessage::Toggle);
    assert!(missing.is_none());
    assert!(pages[0].is_expanded);
    assert!(!pages[0].children[0].is_expanded);
}
