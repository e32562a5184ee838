use status_relay::event::EventType;

#[test]
fn known_codes_have_their_category() {
    assert_eq!(EventType::from_code(1), EventType::UpdateInstallation);
    assert_eq!(EventType::from_code(2), EventType::ServerIssues);
}

#[test]
fn unknown_code_falls_back() {
    assert_eq!(EventType::from_code(0), EventType::Unknown);
    assert_eq!(EventType::from_code(3), EventType::Unknown);
    assert_eq!(EventType::from_code(u32::MAX), EventType::Unknown);
}

#[test]
fn every_category_has_its_label() {
    assert_eq!(EventType::UpdateInstallation.label(), "Installation de mise à jour");
    assert_eq!(EventType::ServerIssues.label(), "Problèmes de serveur");
    assert_eq!(EventType::Unknown.label(), "Inconnu");
}
