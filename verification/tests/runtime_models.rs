use omega_agi::runtime::ml_inference::ModelRegistry;

#[test]
fn models_load_replace_and_unload() {
    let mut r = ModelRegistry::new();
    let h = r.load_model("gpt", "llm");
    assert_eq!((h.model_id.as_str(), h.model_type.as_str()), ("gpt", "llm"));
    assert!(!h.loaded_at.is_empty());
    r.load_model("bert", "encoder");
    r.load_model("gpt", "chat");
    assert_eq!(r.count(), 2);
    assert_eq!(r.loaded_models(), vec!["gpt".to_string(), "bert".to_string()]);
    assert_eq!(r.get("gpt").unwrap().model_type, "chat");
    assert!(r.get("t5").is_none());
    assert!(r.unload_model("gpt"));
    assert!(!r.unload_model("gpt"));
    assert!(r.get("gpt").is_none());
    assert_eq!(r.loaded_models(), vec!["bert".to_string()]);
}
