use ai_orchestrator::kernel::stream::LineOrigin;

#[test]
fn from_role_maps_known_roles_case_insensitively() {
    assert_eq!(LineOrigin::from_role("architect"), Some(LineOrigin::Architect));
    assert_eq!(LineOrigin::from_role("Arquiteto"), Some(LineOrigin::Architect));
    assert_eq!(LineOrigin::from_role("  REVISOR "), Some(LineOrigin::Revisor));
    assert_eq!(LineOrigin::from_role("dev"), Some(LineOrigin::Dev));
    assert_eq!(LineOrigin::from_role("Auditora"), Some(LineOrigin::Auditor));
}

#[test]
fn from_role_rejects_unknown_role() {
    assert_eq!(LineOrigin::from_role("qa"), None);
    assert_eq!(LineOrigin::from_role(""), None);
}

#[test]
fn from_role_lowercases_with_unicode_rules() {
    assert_eq!(LineOrigin::from_role("AUDITORA"), Some(LineOrigin::Auditor));
    assert_eq!(LineOrigin::from_role("DEV"), Some(LineOrigin::Dev));
}
