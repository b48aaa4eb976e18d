use omega_agi::runtime::graph_executor::{GraphExecutor, GraphExecutorError, NodeId, TaskGraph};

fn id(s: &str) -> NodeId {
    NodeId(s.to_string())
}

fn pos(order: &[NodeId], s: &str) -> usize {
    order.iter().position(|n| n.0 == s).unwrap()
}

#[test]
fn sorts_dependencies_first() {
    let mut g = TaskGraph::new("build");
    g.add_node(id("compile"), "compile sources");
    g.add_node(id("test"), "run tests");
    g.add_node(id("deploy"), "ship it");
    assert!(g.add_dependency(id("test"), id("compile")).is_ok());
    assert!(g.add_dependency(id("deploy"), id("test")).is_ok());
    let order = g.topological_sort().ok().unwrap();
    assert_eq!(order.len(), 3);
    assert!(pos(&order, "compile") < pos(&order, "test"));
    assert!(pos(&order, "test") < pos(&order, "deploy"));
    assert_eq!(g.node_count(), 3);
    assert_eq!(g.get_description(&id("test")), Some("run tests"));
    assert_eq!(g.get_description(&id("missing")), None);
}

#[test]
fn cycles_are_detected() {
    let mut g = TaskGraph::new("loop");
    assert!(matches!(g.add_dependency(id("a"), id("a")), Err(GraphExecutorError::CycleDetected)));
    g.add_dependency(id("a"), id("b")).ok().unwrap();
    g.add_dependency(id("b"), id("a")).ok().unwrap();
    assert!(matches!(g.topological_sort(), Err(GraphExecutorError::CycleDetected)));
}

#[test]
fn only_nodes_are_ordered() {
    let mut g = TaskGraph::new("g");
    g.add_dependency(id("app"), id("lib")).ok().unwrap();
    assert_eq!(g.node_count(), 1);
    let order = g.topological_sort().ok().unwrap();
    assert_eq!(order.len(), 1);
    assert_eq!(order[0].0, "app");
    g.add_node(id("lib"), "library");
    assert_eq!(g.node_count(), 2);
    let order = g.topological_sort().ok().unwrap();
    assert_eq!(order.len(), 2);
    assert!(pos(&order, "lib") < pos(&order, "app"));
}

#[test]
fn executor_runs_registered_graphs() {
    let mut ex = GraphExecutor::new();
    let mut g = TaskGraph::new("pipeline");
    g.add_node(id("x"), "first");
    g.add_node(id("y"), "second");
    g.add_dependency(id("y"), id("x")).ok().unwrap();
    ex.register_graph(g);
    assert_eq!(ex.list_graphs(), vec!["pipeline".to_string()]);
    assert!(ex.get_graph("pipeline").is_some());
    let results = ex.execute_graph("pipeline").ok().unwrap();
    assert_eq!(results.len(), 2);
    assert_eq!(results[0].node_id.0, "x");
    assert!(results.iter().all(|r| r.success));
    assert_eq!(results[1].output.as_ref().unwrap().description, "second");
    match ex.execute_graph("nope") {
        Err(GraphExecutorError::NodeNotFound(n)) => assert_eq!(n, "nope"),
        _ => panic!("expected NodeNotFound"),
    }
}
