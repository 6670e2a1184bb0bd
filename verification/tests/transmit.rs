use mail_forward::error::ForwardError;
use mail_forward::privilege::Elevated;
use mail_forward::route::{ForwardingPlan, ResolvedRoute};
use mail_forward::transmit::{
    authorize, prepare_transmission, sendmail_request, spawn_failure, SpawnOutcome,
};

fn strings(items: &[&str]) -> Vec<String> {
    items.iter().map(|item| item.to_string()).collect()
}

#[test]
fn sendmail_is_invoked_with_fixed_options() {
    let handle = Elevated::new(1000, 0).settle(true).unwrap();
    let plan = ForwardingPlan {
        sender: "root".to_string(),
        recipients: strings(&["a@x", "b@x"]),
    };
    let request = sendmail_request(&handle, &plan, b"mail".to_vec());
    assert_eq!(request.program, "/usr/sbin/sendmail");
    assert_eq!(request.search_path, "/sbin:/bin:/usr/sbin:/usr/bin");
    assert_eq!(
        request.arguments,
        strings(&["-bm", "-N", "never", "-f", "root", "--", "a@x", "b@x"])
    );
    assert_eq!(request.input, b"mail".to_vec());
}

#[test]
fn recipient_that_looks_like_an_option_stands_behind_the_separator() {
    let handle = Elevated::new(1000, 0).settle(true).unwrap();
    let plan = ForwardingPlan {
        sender: "-oQ/tmp".to_string(),
        recipients: strings(&["-C/etc/shadow"]),
    };
    let request = sendmail_request(&handle, &plan, b"mail".to_vec());
    assert_eq!(
        request.arguments,
        strings(&["-bm", "-N", "never", "-f", "-oQ/tmp", "--", "-C/etc/shadow"])
    );
}

#[test]
fn only_exit_status_zero_is_a_success() {
    assert_eq!(spawn_failure(SpawnOutcome::Exited(Some(0))), None);
    assert_eq!(spawn_failure(SpawnOutcome::Exited(Some(1))), Some(ForwardError::Delivery(None)));
    assert_eq!(spawn_failure(SpawnOutcome::Exited(Some(-1))), Some(ForwardError::Delivery(None)));
    assert_eq!(spawn_failure(SpawnOutcome::Exited(None)), Some(ForwardError::Delivery(None)));
    assert_eq!(spawn_failure(SpawnOutcome::NotStarted), Some(ForwardError::Delivery(None)));
}

#[test]
fn no_recipient_no_transmission() {
    let routes = vec![ResolvedRoute { sender: None, recipients: Vec::new(), suppress: false }];
    assert_eq!(
        prepare_transmission(Elevated::capture(), &routes, b"mail".to_vec()),
        Err(ForwardError::EmptyRecipient)
    );
}

#[test]
fn transmission_is_prepared_for_the_plan() {
    let routes = vec![
        ResolvedRoute {
            sender: Some("noreply@example.com".to_string()),
            recipients: strings(&["ops@example.com"]),
            suppress: false,
        },
        ResolvedRoute { sender: None, recipients: strings(&["ops@example.com"]), suppress: false },
    ];
    let handle = Elevated::capture();
    let real = handle.real_uid();
    match prepare_transmission(handle, &routes, vec![1, 2, 3]) {
        Ok((lowered, request)) => {
            assert_eq!(lowered.uid(), real);
            assert_eq!(request.program, "/usr/sbin/sendmail");
            assert_eq!(request.input, vec![1, 2, 3]);
            assert_eq!(
                request.arguments,
                strings(&[
                    "-bm",
                    "-N",
                    "never",
                    "-f",
                    "noreply@example.com",
                    "--",
                    "ops@example.com",
                ])
            );
        }
        Err(failure) => assert_eq!(failure, ForwardError::PrivilegeDrop),
    }
}

#[test]
fn refused_lowering_forbids_the_transmission() {
    let plan = ForwardingPlan { sender: "root".to_string(), recipients: strings(&["a@x"]) };
    let lowering = Elevated::new(1000, 0).settle(false);
    assert_eq!(authorize(&plan, vec![7], lowering), Err(ForwardError::PrivilegeDrop));
}

#[test]
fn granted_lowering_allows_the_transmission() {
    let plan = ForwardingPlan { sender: "s@x".to_string(), recipients: strings(&["a@x"]) };
    let lowering = Elevated::new(1000, 0).settle(true);
    let (lowered, request) = authorize(&plan, vec![7, 8], lowering).unwrap();
    assert_eq!(request.input, vec![7, 8]);
    assert_eq!(lowered.uid(), 1000);
    assert_eq!(request.arguments, strings(&["-bm", "-N", "never", "-f", "s@x", "--", "a@x"]));
    assert_eq!(request.search_path, "/sbin:/bin:/usr/sbin:/usr/bin");
}
