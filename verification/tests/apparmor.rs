use cherino::apparmor::{
    fuse_security_opts_with_unconfined, legacy_unconfined_used, pick_profile_name,
    profile_install_path, select_unconfined_value, unconfined_from_env_values,
    unconfined_from_value, FUSE_PROFILE_NAME, LEGACY_FUSE_PROFILE_NAME,
};

#[test]
fn named_profile_security_opts() {
    let opts = fuse_security_opts_with_unconfined(false, FUSE_PROFILE_NAME);
    assert!(
        opts.contains(&"no-new-privileges:true".to_string()),
        "must keep no-new-privileges: {:?}",
        opts
    );
    assert!(
        opts.contains(&format!("apparmor={}", FUSE_PROFILE_NAME)),
        "must use the named profile by default: {:?}",
        opts
    );
    assert!(
        !opts.iter().any(|o| o == "apparmor=unconfined"),
        "must not use apparmor=unconfined by default: {:?}",
        opts
    );
}

#[test]
fn unconfined_fallback_security_opts() {
    let opts = fuse_security_opts_with_unconfined(true, FUSE_PROFILE_NAME);
    assert!(
        opts.contains(&"apparmor=unconfined".to_string()),
        "escape hatch must fall back to apparmor=unconfined: {:?}",
        opts
    );
    assert!(
        opts.contains(&"no-new-privileges:true".to_string()),
        "no-new-privileges must remain even when unconfined: {:?}",
        opts
    );
}

#[test]
fn unconfined_parses_only_truthy_values() {
    assert!(unconfined_from_value(Some("true")));
    assert!(unconfined_from_value(Some("TRUE")));
    assert!(unconfined_from_value(Some("1")));
    assert!(!unconfined_from_value(Some("false")));
    assert!(!unconfined_from_value(Some("0")));
    assert!(!unconfined_from_value(Some("")));
    assert!(!unconfined_from_value(None));
}

#[test]
fn profile_name_prefers_new_then_legacy_then_fail_closed() {
    assert!(
        pick_profile_name(true, true) == FUSE_PROFILE_NAME,
        "new profile installed must win even if legacy is also present"
    );
    assert!(
        pick_profile_name(true, false) == FUSE_PROFILE_NAME,
        "new profile installed must be used"
    );
    assert!(
        pick_profile_name(false, true) == LEGACY_FUSE_PROFILE_NAME,
        "legacy-only hosts must keep working with the legacy name"
    );
    assert!(
        pick_profile_name(false, false) == FUSE_PROFILE_NAME,
        "no profile installed must fail closed on the new name"
    );
}

#[test]
fn security_opts_exact_lists() {
    assert_eq!(
        fuse_security_opts_with_unconfined(false, "celestia-plana-fuse"),
        vec!["no-new-privileges:true".to_string(), "apparmor=celestia-plana-fuse".to_string()]
    );
    assert_eq!(
        fuse_security_opts_with_unconfined(true, "celestia-plana-fuse"),
        vec!["no-new-privileges:true".to_string(), "apparmor=unconfined".to_string()]
    );
    assert_eq!(
        fuse_security_opts_with_unconfined(false, ""),
        vec!["no-new-privileges:true".to_string(), "apparmor=".to_string()]
    );
}

#[test]
fn unconfined_accepts_mixed_case_true_only() {
    assert!(unconfined_from_value(Some("True")));
    assert!(unconfined_from_value(Some("tRuE")));
    assert!(!unconfined_from_value(Some("true ")));
    assert!(!unconfined_from_value(Some(" 1")));
    assert!(!unconfined_from_value(Some("yes")));
    assert!(!unconfined_from_value(Some("tru")));
    assert!(!unconfined_from_value(Some("trüe")));
    assert!(!unconfined_from_value(Some("01")));
}

#[test]
fn primary_variable_takes_precedence_even_when_empty() {
    assert_eq!(select_unconfined_value(Some("0"), Some("1")), Some("0"));
    assert_eq!(select_unconfined_value(Some(""), Some("1")), Some(""));
    assert!(!unconfined_from_env_values(Some(""), Some("1")));
    assert!(!legacy_unconfined_used(Some(""), Some("1")));
}

#[test]
fn legacy_variable_used_only_when_primary_unset_and_non_empty() {
    assert_eq!(select_unconfined_value(None, Some("TRUE")), Some("TRUE"));
    assert!(unconfined_from_env_values(None, Some("TRUE")));
    assert!(legacy_unconfined_used(None, Some("TRUE")));
    assert_eq!(select_unconfined_value(None, Some("")), None);
    assert!(!legacy_unconfined_used(None, Some("")));
    assert!(!unconfined_from_env_values(None, Some("")));
    assert_eq!(select_unconfined_value(None, None), None);
    assert!(!unconfined_from_env_values(None, None));
    assert!(unconfined_from_env_values(Some("1"), None));
}

#[test]
fn profile_install_paths() {
    assert_eq!(profile_install_path(FUSE_PROFILE_NAME), "/etc/apparmor.d/celestia-cherino-fuse");
    assert_eq!(
        profile_install_path(LEGACY_FUSE_PROFILE_NAME),
        "/etc/apparmor.d/celestia-plana-fuse"
    );
}

#[test]
fn fail_closed_for_every_host_state() {
    for new_installed in [false, true] {
        for legacy_installed in [false, true] {
            let name = pick_profile_name(new_installed, legacy_installed);
            let opts = fuse_security_opts_with_unconfined(false, name);
            assert_eq!(opts[0], "no-new-privileges:true");
            assert_eq!(opts[1], format!("apparmor={}", name));
            assert!(!opts.iter().any(|o| o == "apparmor=unconfined"));
        }
    }
}
