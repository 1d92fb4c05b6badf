use petgraph::graph::{Graph, NodeIndex};
use petgraph::Direction;
use serde_json::Value;
use si_pkg::error::SiPkgError;
use si_pkg::graph::{
    children_of, children_of_category, find_marker, get_node, node_ref, resolve, PkgGraph,
};
use si_pkg::hashed_node::HashedNode;
use si_pkg::node::{
    AttrFuncInputNode, AttrFuncInputSpecKind, MapKeyFuncNode, NodeKind, PkgNode, PropChildNode,
    PropNode, PropSpecWidgetKind, ValidationNode, ValidationSpecKind,
};
use si_pkg::pkg::attr_func_input::SiPkgAttrFuncInput;
use si_pkg::pkg::map_key_func::SiPkgMapKeyFunc;
use si_pkg::pkg::prop::SiPkgProp;
use si_pkg::pkg::project_all;
use si_pkg::pkg::validation::SiPkgValidation;
use url::Url;

fn hashed(inner: PkgNode) -> HashedNode {
    HashedNode::new(inner, &[]).expect("the node can be encoded")
}

fn string_prop(name: &str) -> PkgNode {
    PkgNode::Prop(PropNode::String {
        name: name.to_string(),
        default_value: Some("eu-west-1".to_string()),
        func_unique_id: Some(si_pkg::hash::Hash::new(b"region func")),
        widget_kind: PropSpecWidgetKind::Select,
        widget_options: Some(serde_json::from_str::<Value>(r#"[{"label":"a","value":"b"}]"#).unwrap()),
        hidden: true,
        doc_link: Some(Url::parse("https://docs.example.com/region").unwrap()),
    })
}

fn validation(lower: i64, upper: i64) -> PkgNode {
    PkgNode::Validation(ValidationNode {
        kind: ValidationSpecKind::IntegerIsBetweenTwoIntegers,
        lower_bound: Some(lower),
        upper_bound: Some(upper),
        expected_string: None,
        func_unique_id: None,
    })
}

fn input(name: &str) -> PkgNode {
    PkgNode::AttrFuncInput(AttrFuncInputNode {
        name: name.to_string(),
        kind: AttrFuncInputSpecKind::Prop,
        location: format!("/root/domain/{name}"),
    })
}

fn map_key_func(key: &str) -> PkgNode {
    PkgNode::MapKeyFunc(MapKeyFuncNode {
        key: key.to_string(),
        func_unique_id: si_pkg::hash::Hash::new(key.as_bytes()),
    })
}

/// A property with one marker per category, each with entries added in the
/// order in which they are named here.
fn sample_graph() -> (PkgGraph, NodeIndex) {
    let mut graph: PkgGraph = Graph::new();
    let prop = graph.add_node(hashed(string_prop("region")));

    let validations = graph.add_node(hashed(PkgNode::PropChild(PropChildNode::Validations)));
    graph.add_edge(prop, validations, ());
    for (lower, upper) in [(1, 10), (2, 20), (3, 30)] {
        let entry = graph.add_node(hashed(validation(lower, upper)));
        graph.add_edge(validations, entry, ());
    }

    let inputs = graph.add_node(hashed(PkgNode::PropChild(PropChildNode::AttrFuncInputs)));
    graph.add_edge(prop, inputs, ());
    for name in ["first", "second"] {
        let entry = graph.add_node(hashed(input(name)));
        graph.add_edge(inputs, entry, ());
    }

    let map_key_funcs = graph.add_node(hashed(PkgNode::PropChild(PropChildNode::MapKeyFuncs)));
    graph.add_edge(prop, map_key_funcs, ());
    for key in ["alpha", "beta"] {
        let entry = graph.add_node(hashed(map_key_func(key)));
        graph.add_edge(map_key_funcs, entry, ());
    }

    (graph, prop)
}

#[test]
fn string_prop_is_projected_field_by_field() {
    let (graph, prop_idx) = sample_graph();
    let prop = SiPkgProp::from_graph(&graph, prop_idx).unwrap();
    match &prop {
        SiPkgProp::String {
            name,
            default_value,
            func_unique_id,
            widget_kind,
            widget_options,
            hidden,
            doc_link,
            hash,
            source,
        } => {
            assert_eq!(name, "region");
            assert_eq!(default_value.as_deref(), Some("eu-west-1"));
            assert_eq!(*func_unique_id, Some(si_pkg::hash::Hash::new(b"region func")));
            assert_eq!(*widget_kind, PropSpecWidgetKind::Select);
            assert_eq!(
                *widget_options,
                Some(serde_json::from_str::<Value>(r#"[{"label":"a","value":"b"}]"#).unwrap())
            );
            assert!(*hidden);
            assert_eq!(
                doc_link.as_ref().map(Url::as_str),
                Some("https://docs.example.com/region")
            );
            assert_eq!(*hash, graph[prop_idx].hash());
            assert_eq!(source.node_idx, prop_idx);
            assert!(std::ptr::eq(source.graph, &graph));
        }
        other => panic!("expected a string property, got {other:?}"),
    }
}

#[test]
fn shared_accessors_agree_with_the_node() {
    let (graph, prop_idx) = sample_graph();
    let prop = SiPkgProp::from_graph(&graph, prop_idx).unwrap();
    assert_eq!(prop.name(), "region");
    assert_eq!(prop.hash(), graph[prop_idx].hash());
    assert_eq!(prop.func_unique_id(), Some(si_pkg::hash::Hash::new(b"region func")));
    assert_eq!(prop.source().node_idx, prop_idx);
}

#[test]
fn every_prop_kind_has_its_own_view() {
    let none_link: Option<Url> = None;
    let nodes = vec![
        PropNode::Integer {
            name: "count".to_string(),
            default_value: Some(-7),
            func_unique_id: None,
            widget_kind: PropSpecWidgetKind::Text,
            widget_options: None,
            hidden: false,
            doc_link: none_link.clone(),
        },
        PropNode::Boolean {
            name: "enabled".to_string(),
            default_value: Some(true),
            func_unique_id: None,
            widget_kind: PropSpecWidgetKind::Checkbox,
            widget_options: None,
            hidden: false,
            doc_link: none_link.clone(),
        },
        PropNode::Mapping {
            name: "tags".to_string(),
            default_value: Some(serde_json::from_str::<Value>(r#"{"k":"v"}"#).unwrap()),
            func_unique_id: None,
            widget_kind: PropSpecWidgetKind::Mapping,
            widget_options: None,
            hidden: false,
            doc_link: none_link.clone(),
        },
        PropNode::Array {
            name: "ports".to_string(),
            default_value: Some(serde_json::from_str::<Value>("[80,443]").unwrap()),
            func_unique_id: None,
            widget_kind: PropSpecWidgetKind::Array,
            widget_options: None,
            hidden: false,
            doc_link: none_link.clone(),
        },
        PropNode::Object {
            name: "domain".to_string(),
            default_value: None,
            func_unique_id: None,
            widget_kind: PropSpecWidgetKind::Header,
            widget_options: None,
            hidden: false,
            doc_link: none_link,
        },
    ];
    let mut graph: PkgGraph = Graph::new();
    let indices: Vec<NodeIndex> =
        nodes.into_iter().map(|node| graph.add_node(hashed(PkgNode::Prop(node)))).collect();

    match SiPkgProp::from_graph(&graph, indices[0]).unwrap() {
        SiPkgProp::Number { name, default_value, .. } => {
            assert_eq!(name, "count");
            assert_eq!(default_value, Some(-7));
        }
        other => panic!("expected a number, got {other:?}"),
    }
    match SiPkgProp::from_graph(&graph, indices[1]).unwrap() {
        SiPkgProp::Boolean { name, default_value, widget_kind, .. } => {
            assert_eq!(name, "enabled");
            assert_eq!(default_value, Some(true));
            assert_eq!(widget_kind, PropSpecWidgetKind::Checkbox);
        }
        other => panic!("expected a boolean, got {other:?}"),
    }
    match SiPkgProp::from_graph(&graph, indices[2]).unwrap() {
        SiPkgProp::Mapping { name, default_value, .. } => {
            assert_eq!(name, "tags");
            assert_eq!(default_value, Some(serde_json::from_str::<Value>(r#"{"k":"v"}"#).unwrap()));
        }
        other => panic!("expected a map, got {other:?}"),
    }
    match SiPkgProp::from_graph(&graph, indices[3]).unwrap() {
        SiPkgProp::Array { name, default_value, .. } => {
            assert_eq!(name, "ports");
            assert_eq!(default_value, Some(serde_json::from_str::<Value>("[80,443]").unwrap()));
        }
        other => panic!("expected an array, got {other:?}"),
    }
    match SiPkgProp::from_graph(&graph, indices[4]).unwrap() {
        SiPkgProp::Object { name, default_value, hidden, doc_link, .. } => {
            assert_eq!(name, "domain");
            assert_eq!(default_value, None);
            assert!(!hidden);
            assert!(doc_link.is_none());
        }
        other => panic!("expected an object, got {other:?}"),
    }
}

#[test]
fn projecting_twice_gives_the_same_view() {
    let (graph, prop_idx) = sample_graph();
    let first = SiPkgProp::from_graph(&graph, prop_idx).unwrap();
    let second = SiPkgProp::from_graph(&graph, prop_idx).unwrap();
    assert_eq!(first.name(), second.name());
    assert_eq!(first.hash(), second.hash());
    assert_eq!(first.func_unique_id(), second.func_unique_id());
    assert_eq!(first.source().node_idx, second.source().node_idx);
    assert_eq!(format!("{first:?}"), format!("{second:?}"));
}

#[test]
fn a_node_that_is_no_prop_is_refused() {
    let mut graph: PkgGraph = Graph::new();
    let marker = graph.add_node(hashed(PkgNode::PropChild(PropChildNode::Props)));
    let rule = graph.add_node(hashed(validation(0, 1)));
    let key = graph.add_node(hashed(map_key_func("k")));

    let error = SiPkgProp::from_graph(&graph, marker).unwrap_err();
    assert_eq!(error, SiPkgError::UnexpectedPkgNodeType("prop", "prop_child"));
    assert_eq!(error.expected(), "prop");
    assert_eq!(error.found(), "prop_child");
    assert_eq!(
        SiPkgProp::from_graph(&graph, rule).unwrap_err(),
        SiPkgError::UnexpectedPkgNodeType("prop", "validation")
    );
    assert_eq!(
        SiPkgProp::from_graph(&graph, key).unwrap_err(),
        SiPkgError::UnexpectedPkgNodeType("prop", "map_key_func")
    );
}

#[test]
fn project_tells_a_missing_node_from_a_refused_one() {
    let (graph, prop_idx) = sample_graph();
    assert!(matches!(SiPkgProp::project(&graph, prop_idx), Some(Ok(_))));
    let marker = find_marker(&graph, prop_idx, PropChildNode::Validations).unwrap();
    assert!(matches!(
        SiPkgProp::project(&graph, marker),
        Some(Err(SiPkgError::UnexpectedPkgNodeType("prop", "prop_child")))
    ));
    assert!(SiPkgProp::project(&graph, NodeIndex::new(10_000)).is_none());
}

#[test]
fn a_prop_without_markers_has_no_entries() {
    let mut graph: PkgGraph = Graph::new();
    let prop_idx = graph.add_node(hashed(string_prop("lonely")));
    let prop = SiPkgProp::from_graph(&graph, prop_idx).unwrap();
    assert!(prop.validations().unwrap().is_empty());
    assert!(prop.inputs().unwrap().is_empty());
    assert!(prop.map_key_funcs().unwrap().is_empty());
}

#[test]
fn a_marker_without_children_has_no_entries() {
    let mut graph: PkgGraph = Graph::new();
    let prop_idx = graph.add_node(hashed(string_prop("bare")));
    let marker = graph.add_node(hashed(PkgNode::PropChild(PropChildNode::Validations)));
    graph.add_edge(prop_idx, marker, ());
    let prop = SiPkgProp::from_graph(&graph, prop_idx).unwrap();
    assert!(prop.validations().unwrap().is_empty());
    assert!(prop.inputs().unwrap().is_empty());
}

#[test]
fn validations_come_in_edge_order() {
    let (graph, prop_idx) = sample_graph();
    let prop = SiPkgProp::from_graph(&graph, prop_idx).unwrap();
    let views = prop.validations().unwrap();
    let bounds: Vec<(Option<i64>, Option<i64>)> =
        views.iter().map(|view| (view.lower_bound, view.upper_bound)).collect();
    // The entry whose edge was added first comes first.
    assert_eq!(
        bounds,
        vec![(Some(1), Some(10)), (Some(2), Some(20)), (Some(3), Some(30))]
    );

    // The graph itself lists the edge that was added last first.
    let marker = find_marker(&graph, prop_idx, PropChildNode::Validations).unwrap();
    let mut listed: Vec<NodeIndex> =
        graph.neighbors_directed(marker, Direction::Outgoing).collect();
    listed.reverse();
    let seen: Vec<NodeIndex> = views.iter().map(|view| view.source.node_idx).collect();
    assert_eq!(seen, listed);
    for view in &views {
        assert_eq!(view.kind, ValidationSpecKind::IntegerIsBetweenTwoIntegers);
        assert_eq!(view.hash, graph[view.source.node_idx].hash());
    }
}

#[test]
fn asking_again_gives_the_same_order() {
    let (graph, prop_idx) = sample_graph();
    let prop = SiPkgProp::from_graph(&graph, prop_idx).unwrap();
    let first: Vec<NodeIndex> =
        prop.validations().unwrap().iter().map(|view| view.source.node_idx).collect();
    let second: Vec<NodeIndex> =
        prop.validations().unwrap().iter().map(|view| view.source.node_idx).collect();
    assert_eq!(first.len(), 3);
    assert_eq!(first, second);
    assert_eq!(
        children_of_category(&graph, prop_idx, PropChildNode::Validations),
        children_of_category(&graph, prop_idx, PropChildNode::Validations)
    );
}

#[test]
fn inputs_and_map_key_funcs_come_in_edge_order() {
    let (graph, prop_idx) = sample_graph();
    let prop = SiPkgProp::from_graph(&graph, prop_idx).unwrap();

    let inputs = prop.inputs().unwrap();
    let names: Vec<&str> = inputs.iter().map(|view| view.name.as_str()).collect();
    assert_eq!(names, vec!["first", "second"]);
    assert_eq!(inputs[0].kind, AttrFuncInputSpecKind::Prop);
    assert_eq!(inputs[0].location, "/root/domain/first");

    let funcs = prop.map_key_funcs().unwrap();
    let keys: Vec<&str> = funcs.iter().map(|view| view.key.as_str()).collect();
    assert_eq!(keys, vec!["alpha", "beta"]);
    assert_eq!(funcs[0].func_unique_id, si_pkg::hash::Hash::new(b"alpha"));
    assert_eq!(funcs[1].func_unique_id, si_pkg::hash::Hash::new(b"beta"));
}

#[test]
fn an_entry_of_the_wrong_kind_is_refused() {
    let mut graph: PkgGraph = Graph::new();
    let prop_idx = graph.add_node(hashed(string_prop("mixed")));
    let marker = graph.add_node(hashed(PkgNode::PropChild(PropChildNode::Validations)));
    graph.add_edge(prop_idx, marker, ());
    let good = graph.add_node(hashed(validation(1, 2)));
    graph.add_edge(marker, good, ());
    let wrong = graph.add_node(hashed(input("not a validation")));
    graph.add_edge(marker, wrong, ());
    // Never reached: the entry before it is refused first.
    let stray = graph.add_node(hashed(PkgNode::PropChild(PropChildNode::Props)));
    graph.add_edge(marker, stray, ());

    let prop = SiPkgProp::from_graph(&graph, prop_idx).unwrap();
    assert_eq!(
        prop.validations().unwrap_err(),
        SiPkgError::UnexpectedPkgNodeType("validation", "attr_func_input")
    );
}

#[test]
fn each_leaf_view_refuses_other_kinds() {
    let (graph, prop_idx) = sample_graph();
    assert_eq!(
        SiPkgValidation::from_graph(&graph, prop_idx).unwrap_err(),
        SiPkgError::UnexpectedPkgNodeType("validation", "prop")
    );
    assert_eq!(
        SiPkgAttrFuncInput::from_graph(&graph, prop_idx).unwrap_err(),
        SiPkgError::UnexpectedPkgNodeType("attr_func_input", "prop")
    );
    assert_eq!(
        SiPkgMapKeyFunc::from_graph(&graph, prop_idx).unwrap_err(),
        SiPkgError::UnexpectedPkgNodeType("map_key_func", "prop")
    );
}

#[test]
fn project_all_stops_at_the_first_refusal() {
    let (graph, prop_idx) = sample_graph();
    let validations = children_of_category(&graph, prop_idx, PropChildNode::Validations);
    let inputs = children_of_category(&graph, prop_idx, PropChildNode::AttrFuncInputs);

    let all: Vec<SiPkgValidation> = project_all(&graph, &validations).unwrap();
    assert_eq!(all.len(), 3);

    let mixed = vec![validations[0], inputs[0], prop_idx];
    let refused: Result<Vec<SiPkgValidation>, SiPkgError> = project_all(&graph, &mixed);
    assert_eq!(
        refused.unwrap_err(),
        SiPkgError::UnexpectedPkgNodeType("validation", "attr_func_input")
    );

    let none: Vec<SiPkgValidation> = project_all(&graph, &Vec::new()).unwrap();
    assert!(none.is_empty());
}

#[test]
fn the_first_marker_of_a_category_is_the_one_that_counts() {
    let mut graph: PkgGraph = Graph::new();
    let prop_idx = graph.add_node(hashed(string_prop("twice")));
    let older = graph.add_node(hashed(PkgNode::PropChild(PropChildNode::Validations)));
    graph.add_edge(prop_idx, older, ());
    let newer = graph.add_node(hashed(PkgNode::PropChild(PropChildNode::Validations)));
    graph.add_edge(prop_idx, newer, ());
    let under_older = graph.add_node(hashed(validation(1, 1)));
    graph.add_edge(older, under_older, ());
    let under_newer = graph.add_node(hashed(validation(2, 2)));
    graph.add_edge(newer, under_newer, ());

    assert_eq!(find_marker(&graph, prop_idx, PropChildNode::Validations), Some(older));
    assert_eq!(
        children_of_category(&graph, prop_idx, PropChildNode::Validations),
        vec![under_older]
    );
    assert_ne!(under_older, under_newer);
    assert_eq!(find_marker(&graph, prop_idx, PropChildNode::Props), None);
}

#[test]
fn children_are_the_outgoing_neighbors_only() {
    let (graph, prop_idx) = sample_graph();
    let validations = find_marker(&graph, prop_idx, PropChildNode::Validations).unwrap();
    let inputs = find_marker(&graph, prop_idx, PropChildNode::AttrFuncInputs).unwrap();
    let map_key_funcs = find_marker(&graph, prop_idx, PropChildNode::MapKeyFuncs).unwrap();
    // In the order in which the edges were added.
    assert_eq!(children_of(&graph, prop_idx), vec![validations, inputs, map_key_funcs]);
    let listed: Vec<NodeIndex> = graph.neighbors_directed(prop_idx, Direction::Outgoing).collect();
    assert_eq!(listed, vec![map_key_funcs, inputs, validations]);

    let marker = find_marker(&graph, prop_idx, PropChildNode::AttrFuncInputs).unwrap();
    let below = children_of(&graph, marker);
    assert_eq!(below.len(), 2);
    assert!(!below.contains(&prop_idx));
    assert!(children_of(&graph, below[0]).is_empty());
    assert!(children_of(&graph, NodeIndex::new(999)).is_empty());
    assert!(children_of_category(&graph, NodeIndex::new(999), PropChildNode::Props).is_empty());
}

#[test]
fn get_node_finds_what_the_graph_holds() {
    let (graph, prop_idx) = sample_graph();
    let found = get_node(&graph, prop_idx).unwrap();
    assert_eq!(found.inner(), &string_prop("region"));
    assert!(std::ptr::eq(found, &graph[prop_idx]));
    assert!(std::ptr::eq(node_ref(&graph, prop_idx), &graph[prop_idx]));
    assert!(get_node(&graph, NodeIndex::new(graph.node_count())).is_none());
}

#[test]
fn resolve_never_hands_out_another_kind() {
    let (graph, prop_idx) = sample_graph();
    assert_eq!(resolve(&graph, prop_idx, NodeKind::Prop).unwrap(), &string_prop("region"));
    assert_eq!(
        resolve(&graph, prop_idx, NodeKind::Schema).unwrap_err(),
        SiPkgError::UnexpectedNodeKind("schema", "prop")
    );
    let marker = find_marker(&graph, prop_idx, PropChildNode::MapKeyFuncs).unwrap();
    assert_eq!(
        resolve(&graph, marker, NodeKind::PropChild).unwrap(),
        &PkgNode::PropChild(PropChildNode::MapKeyFuncs)
    );
    assert_eq!(
        resolve(&graph, marker, NodeKind::Validation).unwrap_err(),
        SiPkgError::UnexpectedNodeKind("validation", "prop_child")
    );
}

#[test]
fn every_kind_has_a_name_of_its_own() {
    let kinds = [
        (NodeKind::AttrFuncInput, "attr_func_input"),
        (NodeKind::Category, "category"),
        (NodeKind::Func, "func"),
        (NodeKind::MapKeyFunc, "map_key_func"),
        (NodeKind::Package, "package"),
        (NodeKind::Prop, "prop"),
        (NodeKind::PropChild, "prop_child"),
        (NodeKind::Schema, "schema"),
        (NodeKind::SchemaVariant, "schema_variant"),
        (NodeKind::Validation, "validation"),
    ];
    for (position, (kind, name)) in kinds.iter().enumerate() {
        assert_eq!(kind.as_str(), *name);
        assert_eq!(kind.tag() as usize, position);
    }
    assert_eq!(string_prop("p").kind(), NodeKind::Prop);
    assert_eq!(string_prop("p").node_kind_str(), "prop");
    assert_eq!(validation(0, 0).kind(), NodeKind::Validation);
    assert!(PkgNode::PropChild(PropChildNode::Props).is_prop_child(PropChildNode::Props));
    assert!(!PkgNode::PropChild(PropChildNode::Props).is_prop_child(PropChildNode::Validations));
    assert!(!string_prop("p").is_prop_child(PropChildNode::Props));
}

#[test]
fn views_follow_the_order_in_which_entries_were_added() {
    let mut graph: PkgGraph = Graph::new();
    let prop_idx = graph.add_node(hashed(string_prop("ordered")));
    let marker = graph.add_node(hashed(PkgNode::PropChild(PropChildNode::Validations)));
    graph.add_edge(prop_idx, marker, ());
    let mut added: Vec<NodeIndex> = Vec::new();
    for bound in [5, 1, 4, 2, 3] {
        let entry = graph.add_node(hashed(validation(bound, bound + 100)));
        graph.add_edge(marker, entry, ());
        added.push(entry);
    }

    let views = SiPkgProp::from_graph(&graph, prop_idx).unwrap().validations().unwrap();
    assert_eq!(views.len(), added.len());
    for (view, entry) in views.iter().zip(&added) {
        assert_eq!(view.source.node_idx, *entry);
        assert_eq!(view.hash, graph[*entry].hash());
    }
    let lower: Vec<Option<i64>> = views.iter().map(|view| view.lower_bound).collect();
    assert_eq!(lower, vec![Some(5), Some(1), Some(4), Some(2), Some(3)]);
    assert_eq!(children_of_category(&graph, prop_idx, PropChildNode::Validations), added);
}
