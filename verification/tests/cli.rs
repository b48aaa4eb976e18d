use omega_agi::cli::{
    adapter_action, command_named, life_action, superpower_action, truncate, AdapterAction, Command,
    LifeAction, SuperpowerAction,
};
use omega_agi::superpowers::boost::BoostMode;

#[test]
fn commands_and_aliases() {
    assert_eq!(command_named(None), Command::Check);
    assert_eq!(command_named(Some("run")), Command::Run);
    assert_eq!(command_named(Some("chat")), Command::Interactive);
    assert_eq!(command_named(Some("health")), Command::Check);
    assert_eq!(command_named(Some("apex-evolve")), Command::Apex);
    assert_eq!(command_named(Some("rs")), Command::Research);
    assert_eq!(command_named(Some("harness")), Command::Life);
    assert_eq!(command_named(Some("boost")), Command::Superpowers);
    assert_eq!(command_named(Some("character")), Command::Avatar);
    assert_eq!(command_named(Some("tc")), Command::Transcend);
    assert_eq!(command_named(Some("ad")), Command::Adapters);
    assert_eq!(command_named(Some("bogus")), Command::Help);
}

#[test]
fn sub_actions() {
    assert_eq!(life_action(None), LifeAction::Status);
    assert_eq!(life_action(Some("hb")), LifeAction::Heartbeat);
    assert_eq!(life_action(Some("save")), LifeAction::Persist);
    assert_eq!(life_action(Some("dance")), LifeAction::Unknown("dance".to_string()));
    assert_eq!(superpower_action(Some("boost"), Some("turbo")), SuperpowerAction::Boost(BoostMode::Turbo));
    assert_eq!(superpower_action(Some("boost"), None), SuperpowerAction::Boost(BoostMode::Normal));
    assert_eq!(superpower_action(Some("diag"), None), SuperpowerAction::Analyze);
    assert_eq!(superpower_action(None, None), SuperpowerAction::Status);
    assert_eq!(adapter_action(Some("info")), AdapterAction::Info);
    assert_eq!(adapter_action(Some("set")), AdapterAction::SetActive);
    assert_eq!(adapter_action(Some("zz")), AdapterAction::Unknown("zz".to_string()));
}

#[test]
fn truncate_keeps_short_text_and_cuts_long_text() {
    assert_eq!(truncate("short", 44), "short");
    assert_eq!(truncate("abcdefghij", 8), "abcde...");
    assert_eq!(truncate("abcdef", 2), "...");
}
