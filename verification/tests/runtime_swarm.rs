use omega_agi::runtime::effect::{EffectContext, EffectId, EffectIds};
use omega_agi::runtime::swarm::agent_coordinator::{AgentHandle, SwarmCoordinator};

fn agent(id: &str) -> AgentHandle {
    AgentHandle {
        id: id.to_string(),
        name: format!("agent {}", id),
        status: "idle".to_string(),
        capabilities: vec!["code".to_string()],
    }
}

#[test]
fn agents_register_and_leave() {
    let mut c = SwarmCoordinator::new();
    c.register_agent(agent("a1"));
    c.register_agent(agent("a2"));
    let mut renamed = agent("a1");
    renamed.name = "renamed".to_string();
    c.register_agent(renamed);
    assert_eq!(c.agent_count(), 2);
    assert_eq!(c.get_agent("a1").unwrap().name, "renamed");
    assert!(c.unregister_agent("a1"));
    assert!(!c.unregister_agent("a1"));
    assert!(c.get_agent("a1").is_none());
    assert_eq!(c.list_agents().len(), 1);
}

#[test]
fn tasks_move_through_their_states() {
    let mut c = SwarmCoordinator::new();
    let t1 = c.create_task("index the repo");
    let t2 = c.create_task("write docs");
    assert_eq!(t1.id, "task_1");
    assert_eq!(t2.id, "task_2");
    assert_eq!(t1.status, "pending");
    assert!(c.assign_task("task_1", "a1"));
    let t = c.get_task("task_1").unwrap();
    assert_eq!(t.assigned_agent.as_deref(), Some("a1"));
    assert_eq!(t.status, "assigned");
    assert!(c.complete_task("task_1", "indexed"));
    let t = c.get_task("task_1").unwrap();
    assert_eq!(t.status, "completed");
    assert_eq!(t.result.as_deref(), Some("indexed"));
    assert_eq!(t.assigned_agent.as_deref(), Some("a1"));
    assert!(!c.assign_task("task_9", "a1"));
    assert!(!c.complete_task("task_9", "x"));
    assert_eq!(c.task_count(), 2);
}

#[test]
fn effect_ids_count_up() {
    let mut ids = EffectIds::new();
    let a = EffectId::new(&mut ids);
    let b = EffectId::new(&mut ids);
    assert_eq!(a, EffectId(1));
    assert_eq!(b, EffectId(2));
    assert_eq!(b.text(), "Effect#2");
    let ctx = EffectContext { effect_id: a, actor_id: None, correlation_id: Some("c".to_string()) };
    assert_eq!(ctx.effect_id.0, 1);
}
