use mail_forward::accounts::{
    recipient_of, resolve, resolve_product, root_recipient, Lookup, ProductSources, UserEntry,
};
use mail_forward::error::ForwardError;
use mail_forward::product::Product;
use mail_forward::route::{combine, ForwardingPlan, ResolvedRoute};

fn route(sender: Option<&str>, recipients: &[&str], suppress: bool) -> ResolvedRoute {
    ResolvedRoute {
        sender: sender.map(|s| s.to_string()),
        recipients: recipients.iter().map(|r| r.to_string()).collect(),
        suppress,
    }
}

fn entry(userid: &str, email: Option<&str>) -> UserEntry {
    UserEntry { userid: userid.to_string(), email: email.map(|e| e.to_string()) }
}

fn plan(sender: &str, recipients: &[&str]) -> ForwardingPlan {
    ForwardingPlan {
        sender: sender.to_string(),
        recipients: recipients.iter().map(|r| r.to_string()).collect(),
    }
}

#[test]
fn union_is_deduplicated_and_keeps_order() {
    let routes = vec![route(None, &["a@x"], false), route(None, &["b@x", "a@x"], false)];
    assert_eq!(combine(&routes), Ok(plan("root", &["a@x", "b@x"])));
}

#[test]
fn union_removes_repetitions_within_a_route() {
    let routes = vec![route(None, &["b@x", "a@x", "b@x", "c@x", "a@x"], false)];
    assert_eq!(combine(&routes), Ok(plan("root", &["b@x", "a@x", "c@x"])));
}

#[test]
fn no_routes_no_plan() {
    assert_eq!(combine(&Vec::new()), Err(ForwardError::EmptyRecipient));
}

#[test]
fn no_recipients_no_plan() {
    let routes = vec![route(Some("admin@x"), &[], false), route(None, &[], false)];
    assert_eq!(combine(&routes), Err(ForwardError::EmptyRecipient));
}

#[test]
fn suppressed_route_adds_nothing() {
    let routes = vec![route(Some("pbs@x"), &["b@x"], true), route(None, &["a@x"], false)];
    assert_eq!(combine(&routes), Ok(plan("root", &["a@x"])));
    let routes = vec![route(Some("pbs@x"), &["b@x"], true)];
    assert_eq!(combine(&routes), Err(ForwardError::EmptyRecipient));
}

#[test]
fn first_configured_sender_wins() {
    let routes = vec![
        route(None, &["a@x"], false),
        route(Some("first@x"), &[], false),
        route(Some("second@x"), &["b@x"], false),
    ];
    assert_eq!(combine(&routes), Ok(plan("first@x", &["a@x", "b@x"])));
}

#[test]
fn sender_defaults_to_root() {
    let routes = vec![route(None, &["a@x"], false)];
    assert_eq!(combine(&routes).unwrap().sender, "root");
}

#[test]
fn first_matching_entry_wins() {
    let entries = vec![
        entry("alice@pve", Some("alice@example.com")),
        entry("root@pam", Some(" first@example.com ")),
        entry("root@pam", Some("second@example.com")),
    ];
    assert_eq!(root_recipient(&entries), Some("first@example.com".to_string()));
}

#[test]
fn first_matching_entry_wins_even_if_blank() {
    let entries = vec![entry("root@pam", Some("  ")), entry("root@pam", Some("late@example.com"))];
    assert_eq!(root_recipient(&entries), None);
    let entries = vec![entry("root@pam", None), entry("root@pam", Some("late@example.com"))];
    assert_eq!(root_recipient(&entries), None);
}

#[test]
fn no_matching_entry_no_recipient() {
    assert_eq!(root_recipient(&Vec::new()), None);
    let entries = vec![entry("root@pve", Some("x@example.com")), entry("root", Some("y@x"))];
    assert_eq!(root_recipient(&entries), None);
}

#[test]
fn recipient_of_any_account() {
    let entries =
        vec![entry("root@pam", Some("r@example.com")), entry("bob@pbs", Some("b@example.com"))];
    assert_eq!(recipient_of(&entries, "bob@pbs"), Some("b@example.com".to_string()));
    assert_eq!(recipient_of(&entries, "carol@pbs"), None);
}

#[test]
fn resolved_route_holds_recipient_and_sender() {
    let entries = vec![entry("root@pam", Some("ops@example.com"))];
    assert_eq!(
        resolve(Some(&entries), Some(" noreply@example.com ")),
        route(Some("noreply@example.com"), &["ops@example.com"], false)
    );
    assert_eq!(resolve(Some(&entries), Some("  ")), route(None, &["ops@example.com"], false));
    assert_eq!(resolve(None, None), route(None, &[], false));
    assert_eq!(resolve(Some(&Vec::new()), Some("s@x")), route(Some("s@x"), &[], false));
}

#[test]
fn blank_address_of_one_product_leaves_the_other() {
    let pve = vec![entry("root@pam", Some("ops@example.com"))];
    let pbs = vec![entry("root@pam", Some(""))];
    let routes = vec![resolve(Some(&pve), None), resolve(Some(&pbs), None)];
    let plan = combine(&routes).unwrap();
    assert_eq!(plan.recipients, vec!["ops@example.com".to_string()]);
    assert_eq!(plan.sender, "root");
}

#[test]
fn same_address_in_both_products_is_sent_once() {
    let pve = vec![entry("root@pam", Some("ops@example.com"))];
    let pbs = vec![entry("root@pam", Some(" ops@example.com"))];
    let routes = vec![resolve(Some(&pve), Some("pve@example.com")), resolve(Some(&pbs), None)];
    assert_eq!(combine(&routes), Ok(plan("pve@example.com", &["ops@example.com"])));
}

#[test]
fn lookup_failures_count_as_absence() {
    assert_eq!(Lookup::<Vec<UserEntry>>::Missing.settle(Product::Pve), (None, None));
    assert_eq!(
        Lookup::<Vec<UserEntry>>::Unreadable.settle(Product::Pve),
        (None, Some(ForwardError::FileRead(Product::Pve)))
    );
    assert_eq!(
        Lookup::<Vec<UserEntry>>::Malformed.settle(Product::Pbs),
        (None, Some(ForwardError::ConfigParse(Product::Pbs)))
    );
    assert_eq!(
        Lookup::Found(Some("from@x".to_string())).settle(Product::Pve),
        (Some(Some("from@x".to_string())), None)
    );
}

#[test]
fn malformed_accounts_of_one_product_do_not_block_the_other() {
    let (pve, report) = Lookup::<Vec<UserEntry>>::Malformed.settle(Product::Pve);
    assert_eq!(report, Some(ForwardError::ConfigParse(Product::Pve)));
    let (pbs, _) = Lookup::Found(vec![entry("root@pam", Some("b@x"))]).settle(Product::Pbs);
    let routes = vec![resolve(pve.as_ref(), None), resolve(pbs.as_ref(), None)];
    assert_eq!(combine(&routes), Ok(plan("root", &["b@x"])));
}

#[test]
fn blank_root_address_in_one_product_leaves_exactly_the_other() {
    let (pve, pve_reports) = resolve_product(ProductSources {
        product: Product::Pve,
        accounts: Lookup::Found(vec![entry("root@pam", Some("ops@example.com"))]),
        sender: Lookup::Missing,
    });
    let (pbs, pbs_reports) = resolve_product(ProductSources {
        product: Product::Pbs,
        accounts: Lookup::Found(vec![entry("root@pam", Some(""))]),
        sender: Lookup::Missing,
    });
    assert!(pve_reports.is_empty());
    assert!(pbs_reports.is_empty());
    assert_eq!(pbs, route(None, &[], false));
    let plan = combine(&vec![pve, pbs]).unwrap();
    assert_eq!(plan.recipients, vec!["ops@example.com".to_string()]);
}

#[test]
fn product_resolver_reports_what_it_could_not_use() {
    let (found, reports) = resolve_product(ProductSources {
        product: Product::Pve,
        accounts: Lookup::Malformed,
        sender: Lookup::Unreadable,
    });
    assert_eq!(found, route(None, &[], false));
    assert_eq!(
        reports,
        vec![ForwardError::ConfigParse(Product::Pve), ForwardError::FileRead(Product::Pve)]
    );

    let (found, reports) = resolve_product(ProductSources {
        product: Product::Pbs,
        accounts: Lookup::Unreadable,
        sender: Lookup::Found(Some(" backup@example.com ".to_string())),
    });
    assert_eq!(found, route(Some("backup@example.com"), &[], false));
    assert_eq!(reports, vec![ForwardError::FileRead(Product::Pbs)]);
}

#[test]
fn product_resolver_with_missing_files_is_silent() {
    let (found, reports) = resolve_product(ProductSources {
        product: Product::Pve,
        accounts: Lookup::Missing,
        sender: Lookup::Missing,
    });
    assert_eq!(found, route(None, &[], false));
    assert!(reports.is_empty());
    assert_eq!(combine(&vec![found]), Err(ForwardError::EmptyRecipient));
}

#[test]
fn product_resolver_takes_sender_and_recipient() {
    let (found, reports) = resolve_product(ProductSources {
        product: Product::Pve,
        accounts: Lookup::Found(vec![
            entry("backup@pbs", Some("b@example.com")),
            entry("root@pam", Some("ops@example.com\n")),
        ]),
        sender: Lookup::Found(Some("noreply@example.com".to_string())),
    });
    assert!(reports.is_empty());
    assert_eq!(found, route(Some("noreply@example.com"), &["ops@example.com"], false));
    let (found, _) = resolve_product(ProductSources {
        product: Product::Pve,
        accounts: Lookup::Found(Vec::new()),
        sender: Lookup::Found(None),
    });
    assert_eq!(found, route(None, &[], false));
}
