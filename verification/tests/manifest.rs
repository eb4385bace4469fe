use std::collections::BTreeMap;

use rule_cloner::config::{AppConfig, Cli, Executor, RuleSource, Rules};
use rule_cloner::docker::{Compose, ComposeService};
use rule_cloner::orchestrate::{install_command, plan_rule, plan_rules};

fn cli() -> Cli {
    Cli { config: "conf.toml".to_string(), output: "out".to_string() }
}

fn config(rules: Vec<&str>, prefix: &str) -> AppConfig {
    AppConfig {
        executor: Executor {
            source: "https://example.com/executor.git".to_string(),
            git_ref: "main".to_string(),
        },
        rules: Rules {
            rules: rules.into_iter().map(|r| r.to_string()).collect(),
            source: RuleSource {
                version: "@latest".to_string(),
                registry: "npm".to_string(),
                scope: None,
                prefix: prefix.to_string(),
            },
            override_field: vec![],
        },
    }
}

fn as_map(compose: &Compose) -> BTreeMap<String, &ComposeService> {
    let mut m = BTreeMap::new();
    for (k, v) in &compose.services {
        m.insert(k.clone(), v);
    }
    m
}

#[test]
fn service_record_has_fixed_shape() {
    let s = ComposeService::from(("out/901".to_string(), "901".to_string()));
    assert_eq!(s.build.context, "out/901");
    assert_eq!(s.build.args, vec!["GH_TOKEN".to_string()]);
    assert_eq!(s.env_file, vec!["out/901/.env".to_string(), ".env".to_string()]);
    assert_eq!(s.restart, "always");
    assert_eq!(s.depends_on, vec!["redis".to_string(), "arango".to_string()]);
}

#[test]
fn install_command_names_folder_and_package() {
    let c = install_command("out/901", "npm:rule-901@latest");
    assert_eq!(c, "npm install --prefix out/901 rule@npm:rule-901@latest");
}

#[test]
fn end_to_end_single_rule() {
    let cfg = config(vec!["foo"], "svc-");
    let plans = plan_rules(&cli(), &cfg);
    assert_eq!(plans.len(), 1);
    let plan = &plans[0];
    assert_eq!(plan.rule, "foo");
    assert_eq!(plan.folder, "out/foo");
    assert_eq!(plan.git_ref, "main");
    assert_eq!(plan.package, "npm:svc-foo@latest");
    assert_eq!(plan.command, "npm install --prefix out/foo rule@npm:svc-foo@latest");
    assert_eq!(plan.key, "svc-foo");

    let mut compose = Compose::default();
    compose.insert(plan.key.clone(), ComposeService::from((plan.folder.clone(),
        plan.rule.clone())));

    let m = as_map(&compose);
    assert_eq!(m.len(), 1);
    let service = m.get("svc-foo").expect("one service keyed svc-foo");
    assert_eq!(service.depends_on, vec!["redis".to_string(), "arango".to_string()]);
    assert_eq!(service.restart, "always");
}

#[test]
fn failed_rule_contributes_nothing() {
    // Three concurrent workflows; "b"'s checkout fails before its insertion,
    // so only "a" and "c" reach the manifest.
    let cfg = config(vec!["a", "b", "c"], "svc-");
    let plans = plan_rules(&cli(), &cfg);
    assert_eq!(plans.len(), 3);

    let mut compose = Compose::default();
    for plan in &plans {
        let checkout_failed = plan.rule == "b";
        if !checkout_failed {
            compose.insert(plan.key.clone(), ComposeService::from((plan.folder.clone(),
                plan.rule.clone())));
        }
    }

    let m = as_map(&compose);
    assert_eq!(m.keys().cloned().collect::<Vec<_>>(), vec!["svc-a".to_string(),
        "svc-c".to_string()]);
}

#[test]
fn insertion_order_does_not_change_the_manifest() {
    let cfg = config(vec!["a", "b", "c"], "svc-");
    let plans = plan_rules(&cli(), &cfg);

    let mut forward = Compose::default();
    for plan in &plans {
        forward.insert(plan.key.clone(), ComposeService::from((plan.folder.clone(),
            plan.rule.clone())));
    }

    let mut backward = Compose::default();
    for plan in plans.iter().rev() {
        backward.insert(plan.key.clone(), ComposeService::from((plan.folder.clone(),
            plan.rule.clone())));
    }

    let f = as_map(&forward);
    let b = as_map(&backward);
    assert_eq!(f.keys().collect::<Vec<_>>(), b.keys().collect::<Vec<_>>());
    for (k, v) in &f {
        assert_eq!(v.build.context, b[k].build.context);
        assert_eq!(v.env_file, b[k].env_file);
    }
}

#[test]
fn duplicate_rule_names_collide_on_one_key() {
    // Two workflows for the same rule name write to the same key; the
    // manifest keeps whichever write completed last.
    let cfg = config(vec!["x", "x"], "svc-");
    let plans = plan_rules(&cli(), &cfg);
    assert_eq!(plans.len(), 2);
    assert_eq!(plans[0].key, plans[1].key);

    let mut compose = Compose::default();
    let mut first = ComposeService::from((plans[0].folder.clone(), plans[0].rule.clone()));
    first.restart = "first".to_string();
    let mut second = ComposeService::from((plans[1].folder.clone(), plans[1].rule.clone()));
    second.restart = "second".to_string();
    compose.insert(plans[0].key.clone(), first);
    compose.insert(plans[1].key.clone(), second);

    let m = as_map(&compose);
    assert_eq!(m.len(), 1);
    assert_eq!(m["svc-x"].restart, "second");
}

#[test]
fn plan_covers_every_rule_in_listed_order() {
    let cfg = config(vec!["one", "two", "three"], "p-");
    let plans = plan_rules(&cli(), &cfg);
    let rules: Vec<&str> = plans.iter().map(|p| p.rule.as_str()).collect();
    assert_eq!(rules, vec!["one", "two", "three"]);
    let keys: Vec<&str> = plans.iter().map(|p| p.key.as_str()).collect();
    assert_eq!(keys, vec!["p-one", "p-two", "p-three"]);
}

#[test]
fn single_plan_matches_list_entry() {
    let cfg = config(vec!["solo"], "p-");
    let by_list = plan_rules(&cli(), &cfg);
    let alone = plan_rule(&cli(), &cfg, &"solo".to_string());
    assert_eq!(by_list[0].folder, alone.folder);
    assert_eq!(by_list[0].package, alone.package);
    assert_eq!(by_list[0].command, alone.command);
    assert_eq!(by_list[0].key, alone.key);
}
