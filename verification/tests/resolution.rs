use ssh_outbound::algorithm::{resolve_algorithm, resolve_list, HostKeyAlgorithm};
use ssh_outbound::config::{resolve, OutboundSshConfig};

fn config_with_algorithms(algorithms: Option<Vec<String>>) -> OutboundSshConfig {
    OutboundSshConfig {
        name: "proxy".to_string(),
        connector: None,
        server: "example.com".to_string(),
        port: 22,
        username: "user".to_string(),
        password: None,
        private_key: None,
        private_key_passphrase: None,
        host_key: None,
        host_key_algorithms: algorithms,
    }
}

#[test]
fn recognized_names_resolve_to_their_identifiers() {
    assert_eq!(
        resolve_algorithm("ssh-ed25519"),
        Some(HostKeyAlgorithm::Ed25519)
    );
    assert_eq!(resolve_algorithm("ed25519"), Some(HostKeyAlgorithm::Ed25519));
    assert_eq!(
        resolve_algorithm("rsa-sha2-256"),
        Some(HostKeyAlgorithm::RsaSha256)
    );
    assert_eq!(
        resolve_algorithm("rsa-sha2-512"),
        Some(HostKeyAlgorithm::RsaSha512)
    );
    assert_eq!(resolve_algorithm("ssh-rsa"), Some(HostKeyAlgorithm::RsaLegacy));
    assert_eq!(resolve_algorithm("rsa"), Some(HostKeyAlgorithm::RsaLegacy));
    assert_eq!(
        resolve_algorithm("ecdsa-sha2-nistp256"),
        Some(HostKeyAlgorithm::EcdsaNistP256)
    );
    assert_eq!(
        resolve_algorithm("ecdsa-sha2-nistp384"),
        Some(HostKeyAlgorithm::EcdsaNistP384)
    );
    assert_eq!(
        resolve_algorithm("ecdsa-sha2-nistp521"),
        Some(HostKeyAlgorithm::EcdsaNistP521)
    );
}

#[test]
fn unrecognized_names_resolve_to_none() {
    assert_eq!(resolve_algorithm(""), None);
    assert_eq!(resolve_algorithm("bogus"), None);
    assert_eq!(resolve_algorithm("Ed25519"), None);
    assert_eq!(resolve_algorithm("SSH-ED25519"), None);
    assert_eq!(resolve_algorithm(" ssh-rsa"), None);
    assert_eq!(resolve_algorithm("ssh-rsa "), None);
    assert_eq!(resolve_algorithm("rsa-sha2-384"), None);
    assert_eq!(resolve_algorithm("ecdsa"), None);
    assert_eq!(resolve_algorithm("ssh-dss"), None);
}

#[test]
fn resolving_the_same_list_twice_is_identical() {
    let names = vec![
        "ssh-ed25519".to_string(),
        "nonsense".to_string(),
        "rsa".to_string(),
    ];
    let first = resolve_list(&names);
    let second = resolve_list(&names);
    assert_eq!(first, second);
}

#[test]
fn invalid_entries_are_dropped_in_place() {
    let names = vec![
        "rsa-sha2-512".to_string(),
        "ssh-ed25519".to_string(),
        "bogus".to_string(),
        "ecdsa-sha2-nistp256".to_string(),
    ];
    assert_eq!(
        resolve_list(&names),
        vec![
            HostKeyAlgorithm::RsaSha512,
            HostKeyAlgorithm::Ed25519,
            HostKeyAlgorithm::EcdsaNistP256,
        ]
    );
}

#[test]
fn aliases_resolve_like_the_wire_names() {
    assert_eq!(resolve_algorithm("ssh-rsa"), resolve_algorithm("rsa"));
    assert_eq!(resolve_algorithm("ssh-rsa"), Some(HostKeyAlgorithm::RsaLegacy));
    assert_eq!(resolve_algorithm("ed25519"), resolve_algorithm("ssh-ed25519"));
}

#[test]
fn duplicates_are_kept_not_deduplicated() {
    let names = vec!["ssh-rsa".to_string(), "rsa".to_string()];
    assert_eq!(
        resolve_list(&names),
        vec![HostKeyAlgorithm::RsaLegacy, HostKeyAlgorithm::RsaLegacy]
    );
}

#[test]
fn absent_list_stays_absent() {
    let handler = resolve(&config_with_algorithms(None));
    assert!(handler.host_key_algorithms.is_none());
}

#[test]
fn all_unrecognized_list_becomes_present_and_empty() {
    let handler = resolve(&config_with_algorithms(Some(vec!["bogus".to_string()])));
    assert_eq!(handler.host_key_algorithms, Some(vec![]));
}

#[test]
fn every_other_field_is_copied_verbatim() {
    let config = OutboundSshConfig {
        name: "edge1".to_string(),
        connector: Some("upstream".to_string()),
        server: "ssh.example.net".to_string(),
        port: 22,
        username: "u".to_string(),
        password: Some("p".to_string()),
        private_key: None,
        private_key_passphrase: Some("secret".to_string()),
        host_key: Some("AAAA...".to_string()),
        host_key_algorithms: Some(vec!["ssh-ed25519".to_string()]),
    };
    let handler = resolve(&config);
    assert_eq!(handler.name, "edge1");
    assert_eq!(handler.connector, Some("upstream".to_string()));
    assert_eq!(handler.server, "ssh.example.net");
    assert_eq!(handler.port, 22);
    assert_eq!(handler.username, "u");
    assert_eq!(handler.password, Some("p".to_string()));
    assert_eq!(handler.private_key, None);
    assert_eq!(handler.private_key_passphrase, Some("secret".to_string()));
    assert_eq!(handler.host_key, Some("AAAA...".to_string()));
    assert_eq!(
        handler.host_key_algorithms,
        Some(vec![HostKeyAlgorithm::Ed25519])
    );
}

#[test]
fn completes_for_every_syntactically_valid_record() {
    let empty_list = resolve(&config_with_algorithms(Some(vec![])));
    assert_eq!(empty_list.host_key_algorithms, Some(vec![]));

    let only_unrecognized = resolve(&config_with_algorithms(Some(vec![
        "one".to_string(),
        "two".to_string(),
        "three".to_string(),
    ])));
    assert_eq!(only_unrecognized.host_key_algorithms, Some(vec![]));

    let no_auth_material = resolve(&config_with_algorithms(None));
    assert!(no_auth_material.password.is_none());
    assert!(no_auth_material.private_key.is_none());
    assert!(no_auth_material.host_key.is_none());
}
