use cce::mask::{export_lines, export_statement, mask_env_token, mask_token};
use cce::{Config, DriftStatus, Environment, ProviderManager, SwitchOutcome};

fn s(x: &str) -> String {
    x.to_string()
}

fn registry() -> Config {
    let mut c = Config::new();
    ProviderManager::add_provider(&mut c, s("acme"), s("https://x"), s("tok12345678"));
    ProviderManager::add_provider(&mut c, s("beta"), s("https://b"), s("short"));
    c
}

fn no_env() -> Environment {
    Environment::new(None, None)
}

#[test]
fn empty_registry_lists_nothing_then_add_use_exports() {
    let mut c = Config::new();
    assert!(ProviderManager::list_providers(&c).is_empty());

    let replaced = ProviderManager::add_provider(&mut c, s("acme"), s("https://x"), s("tok12345678"));
    assert!(!replaced);
    assert_eq!(c.providers.len(), 1);
    assert_eq!(c.providers[0].name, "acme");
    assert_eq!(c.providers[0].api_url, "https://x");
    assert_eq!(c.providers[0].token, "tok12345678");

    let list = ProviderManager::list_providers(&c);
    assert_eq!(list.len(), 1);
    assert_eq!(list[0].name, "acme");
    assert_eq!(list[0].api_url, "https://x");
    assert_eq!(list[0].masked_token, "tok12345****");
    assert!(!list[0].active);

    let mut env = no_env();
    match ProviderManager::use_provider(&mut c, &mut env, "acme") {
        SwitchOutcome::Switched(p) => {
            let lines = export_lines(&p.token, &p.api_url);
            assert_eq!(lines, vec![
                s("export ANTHROPIC_AUTH_TOKEN=\"tok12345678\""),
                s("export ANTHROPIC_BASE_URL=\"https://x\""),
            ]);
        }
        _ => panic!("expected a switch"),
    }
    assert_eq!(c.current_provider, Some(s("acme")));
    assert_eq!(env.auth_token, Some(s("tok12345678")));
    assert_eq!(env.base_url, Some(s("https://x")));

    let list = ProviderManager::list_providers(&c);
    assert!(list[0].active);
}

#[test]
fn add_then_list_shows_token_prefix() {
    let c = registry();
    let list = ProviderManager::list_providers(&c);
    assert_eq!(list.len(), 2);
    assert_eq!(list[1].name, "beta");
    assert_eq!(list[1].masked_token, "short****");
    assert!(list[0].masked_token.starts_with("tok12345"));
    assert!(!list[0].masked_token.contains("tok123456"));
}

#[test]
fn add_existing_name_overwrites_in_place() {
    let mut c = registry();
    let replaced = ProviderManager::add_provider(&mut c, s("acme"), s("https://y"), s("newtoken"));
    assert!(replaced);
    assert_eq!(c.providers.len(), 2);
    assert_eq!(c.providers[0].name, "acme");
    assert_eq!(c.providers[0].api_url, "https://y");
    assert_eq!(c.providers[0].token, "newtoken");
    assert_eq!(c.providers[1].name, "beta");
}

#[test]
fn switch_twice_reports_already_active() {
    let mut c = registry();
    let mut env = no_env();
    assert!(matches!(
        ProviderManager::use_provider(&mut c, &mut env, "beta"),
        SwitchOutcome::Switched(_)
    ));
    assert_eq!(c.current_provider, Some(s("beta")));
    env.auth_token = Some(s("changed"));
    let before_names: Vec<String> = c.providers.iter().map(|p| p.name.clone()).collect();
    assert!(matches!(
        ProviderManager::use_provider(&mut c, &mut env, "beta"),
        SwitchOutcome::AlreadyActive
    ));
    assert_eq!(c.current_provider, Some(s("beta")));
    let after_names: Vec<String> = c.providers.iter().map(|p| p.name.clone()).collect();
    assert_eq!(before_names, after_names);
    assert_eq!(env.auth_token, Some(s("changed")));
}

#[test]
fn switch_to_unknown_changes_nothing() {
    let mut c = registry();
    let mut env = Environment::new(Some(s("a")), None);
    assert!(matches!(
        ProviderManager::use_provider(&mut c, &mut env, "nope"),
        SwitchOutcome::NotFound
    ));
    assert_eq!(c.current_provider, None);
    assert_eq!(env.auth_token, Some(s("a")));
    assert_eq!(env.base_url, None);
}

#[test]
fn switch_sets_current_and_both_variables() {
    let mut c = registry();
    let mut env = Environment::new(Some(s("old")), Some(s("https://old")));
    ProviderManager::use_provider(&mut c, &mut env, "acme");
    assert_eq!(c.current_provider, Some(s("acme")));
    assert_eq!(env.auth_token, Some(s("tok12345678")));
    assert_eq!(env.base_url, Some(s("https://x")));
}

#[test]
fn eval_unknown_name_writes_only_an_error() {
    let mut c = registry();
    let out = ProviderManager::use_provider_eval(&mut c, "ghost");
    assert!(!out.changed);
    assert!(out.stdout.is_empty());
    assert_eq!(out.stderr, vec![s("# Error: Service provider 'ghost' does not exist")]);
    assert!(out.stderr[0].starts_with("# Error:"));
    assert_eq!(c.current_provider, None);
    assert_eq!(c.providers.len(), 2);
}

#[test]
fn eval_known_name_writes_exports_even_when_active() {
    let mut c = registry();
    for _ in 0..2 {
        let out = ProviderManager::use_provider_eval(&mut c, "beta");
        assert!(out.changed);
        assert!(out.stderr.is_empty());
        assert_eq!(out.stdout, vec![
            s("export ANTHROPIC_AUTH_TOKEN=\"short\""),
            s("export ANTHROPIC_BASE_URL=\"https://b\""),
        ]);
        assert_eq!(c.current_provider, Some(s("beta")));
    }
}

#[test]
fn drift_check_match_and_one_char_changes() {
    let mut c = registry();
    ProviderManager::use_provider_eval(&mut c, "acme");
    let env = Environment::new(Some(s("tok12345678")), Some(s("https://x")));
    let r = ProviderManager::check_environment(&c, &env);
    assert_eq!(r.status, DriftStatus::Match);
    assert_eq!(r.token_shown, Some(s("tok12345****")));
    assert_eq!(r.url_shown, Some(s("https://x")));
    assert_eq!(r.active.as_ref().map(|p| p.name.clone()), Some(s("acme")));

    let env = Environment::new(Some(s("tok12345679")), Some(s("https://x")));
    assert_eq!(ProviderManager::check_environment(&c, &env).status, DriftStatus::Mismatch);
    let env = Environment::new(Some(s("tok12345678")), Some(s("https://y")));
    assert_eq!(ProviderManager::check_environment(&c, &env).status, DriftStatus::Mismatch);
    let r = ProviderManager::check_environment(&c, &no_env());
    assert_eq!(r.status, DriftStatus::Mismatch);
    assert_eq!(r.token_shown, None);
    assert_eq!(r.url_shown, None);
}

#[test]
fn drift_check_none_selected() {
    let c = registry();
    let r = ProviderManager::check_environment(&c, &no_env());
    assert_eq!(r.status, DriftStatus::NoneSelected);
    assert!(r.has_providers);
    assert!(r.active.is_none());
    let r = ProviderManager::check_environment(&Config::new(), &no_env());
    assert_eq!(r.status, DriftStatus::NoneSelected);
    assert!(!r.has_providers);
}

#[test]
fn remove_active_leaves_dangling_name() {
    let mut c = registry();
    let mut env = no_env();
    ProviderManager::use_provider(&mut c, &mut env, "acme");
    assert!(ProviderManager::remove_provider(&mut c, "acme"));
    assert_eq!(c.current_provider, Some(s("acme")));
    assert_eq!(c.providers.len(), 1);
    assert_eq!(c.providers[0].name, "beta");
    let r = ProviderManager::check_environment(&c, &env);
    assert_eq!(r.status, DriftStatus::MissingProvider);
    assert!(r.active.is_none());
    // The dangling name no longer counts as a provider for switching.
    assert!(matches!(
        ProviderManager::use_provider(&mut c, &mut env, "acme"),
        SwitchOutcome::NotFound
    ));
}

#[test]
fn remove_unknown_is_a_no_op() {
    let mut c = registry();
    assert!(!ProviderManager::remove_provider(&mut c, "zzz"));
    assert_eq!(c.providers.len(), 2);
}

#[test]
fn masking_edges() {
    assert_eq!(mask_token(""), "****");
    assert_eq!(mask_token("12345678"), "12345678****");
    assert_eq!(mask_token("123456789"), "12345678****");
    assert_eq!(mask_token("äöüßéèàç€x"), "äöüßéèàç****");
    assert_eq!(mask_env_token("12345678"), "****");
    assert_eq!(mask_env_token("123456789"), "12345678****");
    assert_eq!(mask_env_token(""), "****");
}

#[test]
fn export_statement_format() {
    assert_eq!(export_statement("K", "v w"), "export K=\"v w\"");
}

#[test]
fn well_formed_detects_repeated_names() {
    let mut c = registry();
    assert!(c.well_formed());
    c.providers.push(cce::Provider::new(s("acme"), s("u"), s("t")));
    assert!(!c.well_formed());
}

#[test]
fn shell_function_names_the_executable() {
    let f = ProviderManager::output_shellenv(Some(s("/usr/bin/cce")));
    assert!(f.starts_with("cce() {\n    local cce_binary=\"/usr/bin/cce\"\n    \n    if [[ \"$1\" == \"use\""));
    assert!(f.contains("--eval 2>/dev/null"));
    assert!(f.ends_with("    fi\n}"));
    let g = ProviderManager::output_shellenv(None);
    assert!(g.contains("local cce_binary=\"cce\"\n"));
}

#[test]
fn set_environment_variables_overwrites_both() {
    let mut env = Environment::new(Some(s("a")), Some(s("b")));
    let p = cce::Provider::new(s("n"), s("https://u"), s("secret"));
    ProviderManager::set_environment_variables(&mut env, &p);
    assert_eq!(env.auth_token, Some(s("secret")));
    assert_eq!(env.base_url, Some(s("https://u")));
}
