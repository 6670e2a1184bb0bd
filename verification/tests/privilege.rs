use mail_forward::error::ForwardError;
use mail_forward::privilege::Elevated;

#[test]
fn handle_keeps_the_ids_it_was_made_with() {
    let handle = Elevated::new(1000, 0);
    assert_eq!(handle.real_uid(), 1000);
    assert_eq!(handle.effective_uid(), 0);
}

#[test]
fn granted_lowering_acts_as_the_real_user() {
    let lowered = Elevated::new(1000, 0).settle(true).unwrap();
    assert_eq!(lowered.uid(), 1000);
    let lowered = Elevated::new(0, 0).settle(true).unwrap();
    assert_eq!(lowered.uid(), 0);
}

#[test]
fn refused_lowering_is_a_privilege_drop_failure() {
    assert_eq!(Elevated::new(1000, 0).settle(false), Err(ForwardError::PrivilegeDrop));
}

#[test]
fn captured_handle_lowers_to_the_real_user() {
    let handle = Elevated::capture();
    let real = handle.real_uid();
    match handle.drop_privileges() {
        Ok(lowered) => assert_eq!(lowered.uid(), real),
        Err(failure) => assert_eq!(failure, ForwardError::PrivilegeDrop),
    }
}

#[test]
fn lowering_twice_changes_nothing() {
    let first = Elevated::capture();
    let real = first.real_uid();
    if let Ok(lowered) = first.drop_privileges() {
        assert_eq!(lowered.uid(), real);
        let again = Elevated::capture();
        assert_eq!(again.real_uid(), real);
        assert_eq!(again.effective_uid(), real);
    }
}
