use mail_forward::error::{ForwardError, EXIT_STATUS};
use mail_forward::policy::{pbs_policy, resolve_pbs, resolve_pve, PbsPolicy, Resolution};
use mail_forward::product::{ConfigFile, Product, ProductPresence};
use mail_forward::source::{attempt_file_read, ConfigSource, FileRead};

#[test]
fn pbs_policy_over_all_combinations() {
    assert_eq!(pbs_policy(false, false), PbsPolicy::Defaults);
    assert_eq!(pbs_policy(true, false), PbsPolicy::Suppressed);
    assert_eq!(pbs_policy(false, true), PbsPolicy::OwnConfig);
    assert_eq!(pbs_policy(true, true), PbsPolicy::OwnConfig);
}

#[test]
fn resolution_source_and_activity() {
    let own = Resolution::Forward(ConfigSource {
        public: "targets".to_string(),
        private: "secrets".to_string(),
    });
    assert!(own.is_active());
    assert_eq!(
        own.source(),
        ConfigSource { public: "targets".to_string(), private: "secrets".to_string() }
    );
    assert!(!Resolution::Suppressed.is_active());
    assert!(!Resolution::Absent.is_active());
    assert_eq!(Resolution::Suppressed.source(), ConfigSource::builtin());
}

#[test]
fn builtin_source_is_empty() {
    let source = ConfigSource::builtin();
    assert_eq!(source.public, "");
    assert_eq!(source.private, "");
}

#[test]
fn source_from_reads_takes_content_or_nothing() {
    let source =
        ConfigSource::from_reads(FileRead::Content("sendmail: x\n".to_string()), FileRead::Missing);
    assert_eq!(source.public, "sendmail: x\n");
    assert_eq!(source.private, "");
    let source =
        ConfigSource::from_reads(FileRead::Unreadable, FileRead::Content("token".to_string()));
    assert_eq!(source.public, "");
    assert_eq!(source.private, "token");
    let copy = source.duplicate();
    assert_eq!(copy, source);
}

#[test]
fn file_read_into_text() {
    assert_eq!(FileRead::Missing.into_text(), "");
    assert_eq!(FileRead::Unreadable.into_text(), "");
    assert_eq!(FileRead::Content("abc".to_string()).into_text(), "abc");
}

#[test]
fn attempt_file_read_maps_failure_to_absence() {
    assert_eq!(attempt_file_read(Product::Pve, FileRead::Missing), (None, None));
    assert_eq!(
        attempt_file_read(Product::Pbs, FileRead::Unreadable),
        (None, Some(ForwardError::FileRead(Product::Pbs)))
    );
    assert_eq!(
        attempt_file_read(Product::Pve, FileRead::Content("x".to_string())),
        (Some("x".to_string()), None)
    );
    assert_eq!(
        attempt_file_read(Product::Pve, FileRead::Content(String::new())),
        (Some(String::new()), None)
    );
}

#[test]
fn well_known_paths() {
    assert_eq!(Product::Pve.marker_dir(), "/etc/pve");
    assert_eq!(Product::Pbs.marker_dir(), "/etc/proxmox-backup");
    assert_eq!(Product::Pve.config_path(ConfigFile::Public), "/etc/pve/notifications.cfg");
    assert_eq!(Product::Pve.config_path(ConfigFile::Private), "/etc/pve/priv/notifications.cfg");
    assert_eq!(
        Product::Pbs.config_path(ConfigFile::Public),
        "/etc/proxmox-backup/notifications.cfg"
    );
    assert_eq!(
        Product::Pbs.config_path(ConfigFile::Private),
        "/etc/proxmox-backup/notifications-priv.cfg"
    );
}

#[test]
fn presence_flags() {
    let none = ProductPresence::none();
    assert!(!none.any());
    assert!(!none.has(Product::Pve));
    assert!(!none.has(Product::Pbs));
    let pbs = none.with(Product::Pbs, true);
    assert_eq!(pbs, ProductPresence { pve: false, pbs: true });
    assert!(pbs.any());
    assert!(pbs.has(Product::Pbs));
    let both = pbs.with(Product::Pve, true);
    assert_eq!(both, ProductPresence { pve: true, pbs: true });
    assert_eq!(both.with(Product::Pbs, false), ProductPresence { pve: true, pbs: false });
}

#[test]
fn which_failures_are_fatal() {
    assert!(ForwardError::InputRead.is_fatal());
    assert!(ForwardError::PrivilegeDrop.is_fatal());
    assert!(ForwardError::EmptyRecipient.is_fatal());
    assert!(ForwardError::OutOfTurn.is_fatal());
    assert!(!ForwardError::FileRead(Product::Pve).is_fatal());
    assert!(!ForwardError::ConfigParse(Product::Pbs).is_fatal());
    assert!(!ForwardError::Delivery(Some(Product::Pve)).is_fatal());
    assert!(!ForwardError::Delivery(None).is_fatal());
}

#[test]
fn which_product_a_failure_belongs_to() {
    assert_eq!(ForwardError::FileRead(Product::Pve).product(), Some(Product::Pve));
    assert_eq!(ForwardError::ConfigParse(Product::Pbs).product(), Some(Product::Pbs));
    assert_eq!(ForwardError::Delivery(Some(Product::Pbs)).product(), Some(Product::Pbs));
    assert_eq!(ForwardError::Delivery(None).product(), None);
    assert_eq!(ForwardError::PrivilegeDrop.product(), None);
    assert_eq!(ForwardError::EmptyRecipient.product(), None);
    assert_eq!(ForwardError::InputRead.product(), None);
    assert_eq!(ForwardError::OutOfTurn.product(), None);
}

#[test]
fn exit_status_is_zero() {
    assert_eq!(EXIT_STATUS, 0);
}

fn forward(public: &str, private: &str) -> Resolution {
    Resolution::Forward(ConfigSource { public: public.to_string(), private: private.to_string() })
}

#[test]
fn pve_resolver_always_forwards() {
    assert_eq!(
        resolve_pve(FileRead::Content("a".to_string()), FileRead::Content("b".to_string())),
        forward("a", "b")
    );
    assert_eq!(resolve_pve(FileRead::Missing, FileRead::Missing), forward("", ""));
    assert_eq!(
        resolve_pve(FileRead::Unreadable, FileRead::Content("b".to_string())),
        forward("", "b")
    );
}

#[test]
fn pbs_resolver_without_config_is_suppressed_behind_pve() {
    assert_eq!(resolve_pbs(true, None), Resolution::Suppressed);
}

#[test]
fn pbs_resolver_without_config_and_alone_uses_defaults() {
    assert_eq!(resolve_pbs(false, None), forward("", ""));
}

#[test]
fn pbs_resolver_with_own_config_ignores_pve() {
    for has_pve in [false, true] {
        assert_eq!(
            resolve_pbs(
                has_pve,
                Some((FileRead::Content("pub".to_string()), FileRead::Content("priv".to_string())))
            ),
            forward("pub", "priv")
        );
        assert_eq!(
            resolve_pbs(has_pve, Some((FileRead::Content(String::new()), FileRead::Missing))),
            forward("", "")
        );
        assert_eq!(
            resolve_pbs(has_pve, Some((FileRead::Unreadable, FileRead::Unreadable))),
            forward("", "")
        );
    }
}
