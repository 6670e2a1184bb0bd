//! The invocation of the mail transport agent.
//!
//! The agent is started with a fixed program path, a fixed search path and
//! an argument list in which nothing that a configuration file holds can
//! pass for an option: the sender is the operand of `-f`, and the
//! recipients stand behind `--`.

use vstd::prelude::*;
use crate::error::ForwardError;
use crate::privilege::{Dropped, Elevated};
use crate::route::{combine, plan_for, ForwardingPlan, PlanView, ResolvedRoute, RouteView};

verus! {

/// The program, the environment and the arguments with which the driver is
/// to start the mail transport agent. The mail goes to its standard input.
#[derive(Debug, PartialEq, Eq)]
pub struct SpawnRequest {
    /// The path of the program.
    pub program: String,
    /// The value of `PATH` for the program; the invoker's is not trusted.
    pub search_path: String,
    /// The arguments of the program.
    pub arguments: Vec<String>,
    /// What to write to the standard input of the program: the mail.
    pub input: Vec<u8>,
}

/// The mathematical value of a `SpawnRequest`.
pub struct SpawnView {
    pub program: Seq<char>,
    pub search_path: Seq<char>,
    pub arguments: Seq<Seq<char>>,
    pub input: Seq<u8>,
}

impl DeepView for SpawnRequest {
    type V = SpawnView;

    open spec fn deep_view(&self) -> SpawnView {
        SpawnView {
            program: self.program@,
            search_path: self.search_path@,
            arguments: self.arguments.deep_view(),
            input: self.input@,
        }
    }
}

/// The arguments for a plan: deliver in the usual way, reading the mail
/// from standard input (`-bm`); never send a delivery status notification,
/// so that a permanent failure cannot loop (`-N never`); send as the plan's
/// sender (`-f`); end of the options (`--`); the plan's recipients.
pub open spec fn sendmail_arguments(plan: PlanView) -> Seq<Seq<char>> {
    seq!["-bm"@, "-N"@, "never"@, "-f"@, plan.sender, "--"@] + plan.recipients
}

/// The invocation that forwards the mail `payload` as the plan says.
pub open spec fn request_for(plan: PlanView, payload: Seq<u8>) -> SpawnView {
    SpawnView {
        program: "/usr/sbin/sendmail"@,
        search_path: "/sbin:/bin:/usr/sbin:/usr/bin"@,
        arguments: sendmail_arguments(plan),
        input: payload,
    }
}

/// Says how to start the mail transport agent to forward the mail as the
/// plan says. The handle shows that the identity has been lowered: without
/// it there is no invocation.
pub fn sendmail_request(handle: &Dropped, plan: &ForwardingPlan, payload: Vec<u8>) -> (request:
    SpawnRequest)
    ensures
        request.deep_view() == request_for(plan.deep_view(), payload@),
{
    let mut arguments: Vec<String> = Vec::new();
    arguments.push("-bm".to_owned());
    arguments.push("-N".to_owned());
    arguments.push("never".to_owned());
    arguments.push("-f".to_owned());
    arguments.push(plan.sender.clone());
    arguments.push("--".to_owned());
    let ghost head = arguments.deep_view();
    assert(head =~= seq!["-bm"@, "-N"@, "never"@, "-f"@, plan.sender@, "--"@]);
    let mut i: usize = 0;
    while i < plan.recipients.len()
        invariant
            i <= plan.recipients.len(),
            arguments.deep_view() == head + plan.recipients.deep_view().take(i as int),
        decreases plan.recipients.len() - i,
    {
        let ghost before = arguments.deep_view();
        arguments.push(plan.recipients[i].clone());
        assert(arguments.deep_view() =~= before.push(plan.recipients.deep_view()[i as int]));
        assert(head + plan.recipients.deep_view().take(i + 1) =~= before.push(
            plan.recipients.deep_view()[i as int],
        ));
        i = i + 1;
    }
    assert(plan.recipients.deep_view().take(i as int) =~= plan.recipients.deep_view());
    SpawnRequest {
        program: "/usr/sbin/sendmail".to_owned(),
        search_path: "/sbin:/bin:/usr/sbin:/usr/bin".to_owned(),
        arguments,
        input: payload,
    }
}

/// How the start of the mail transport agent ended.
#[derive(Clone, Copy, Debug, PartialEq, Eq)]
pub enum SpawnOutcome {
    /// The program could not be started.
    NotStarted,
    /// The program ran and ended with this status; `None` if a signal
    /// ended it.
    Exited(Option<i32>),
}

/// The failure of a transmission, if it was one: anything but an exit with
/// status zero.
pub open spec fn transmission_failure(outcome: SpawnOutcome) -> Option<ForwardError> {
    if outcome == SpawnOutcome::Exited(Some(0i32)) {
        None
    } else {
        Some(ForwardError::Delivery(None))
    }
}

/// Tells what to report of a transmission. A failure is reported and not
/// retried.
pub fn spawn_failure(outcome: SpawnOutcome) -> (report: Option<ForwardError>)
    ensures
        report == transmission_failure(outcome),
{
    match outcome {
        SpawnOutcome::Exited(Some(status)) => if status == 0 {
            None
        } else {
            Some(ForwardError::Delivery(None))
        },
        _ => Some(ForwardError::Delivery(None)),
    }
}

/// What the routes and the outcome of the lowering lead to: the invocation
/// for the plan of the routes, or the failure that forbids it. Without a
/// plan the lowering does not matter; with one, a refused lowering is
/// fatal.
pub open spec fn transmission_for(
    routes: Seq<RouteView>,
    payload: Seq<u8>,
    granted: bool,
) -> Result<SpawnView, ForwardError> {
    match plan_for(routes) {
        Ok(plan) => if granted {
            Ok(request_for(plan, payload))
        } else {
            Err(ForwardError::PrivilegeDrop)
        },
        Err(failure) => Err(failure),
    }
}

/// Whatever the routes are, a refused lowering leaves no invocation: the
/// outcome is a failure, `EmptyRecipient` where there is no plan anyway and
/// `PrivilegeDrop` else. A granted one leads to an invocation exactly if
/// there is a plan.
pub proof fn lemma_no_transmission_without_lowering(routes: Seq<RouteView>, payload: Seq<u8>)
    ensures
        transmission_for(routes, payload, false) is Err,
        transmission_for(routes, payload, false) == Err::<SpawnView, ForwardError>(
            ForwardError::PrivilegeDrop,
        ) <==> plan_for(routes) is Ok,
        transmission_for(routes, payload, true) is Ok <==> plan_for(routes) is Ok,
{
    crate::route::lemma_plan_is_sound(routes);
}

/// Decides on the transmission of a plan from how the lowering ended: the
/// invocation under the lowered handle if it was granted, and its failure,
/// without any invocation, if it was not.
pub fn authorize(
    plan: &ForwardingPlan,
    payload: Vec<u8>,
    lowering: Result<Dropped, ForwardError>,
) -> (outcome: Result<(Dropped, SpawnRequest), ForwardError>)
    ensures
        match lowering {
            Ok(handle) => outcome matches Ok((lowered, request)) && lowered == handle
                && request.deep_view() == request_for(plan.deep_view(), payload@),
            Err(failure) => outcome == Err::<(Dropped, SpawnRequest), ForwardError>(failure),
        },
{
    match lowering {
        Ok(handle) => {
            let request = sendmail_request(&handle, plan, payload);
            Ok((handle, request))
        },
        Err(failure) => Err(failure),
    }
}

/// Goes from the routes and the mail to the invocation of the mail transport
/// agent: makes the plan, lowers the identity, and says how to start the
/// agent.
///
/// Where the routes name no recipient the outcome is `EmptyRecipient`, and
/// the identity is left as it is. Where the system refuses the lowering the
/// outcome is `PrivilegeDrop`. In neither case is there an invocation.
pub fn prepare_transmission(
    handle: Elevated,
    routes: &Vec<ResolvedRoute>,
    payload: Vec<u8>,
) -> (outcome: Result<(Dropped, SpawnRequest), ForwardError>)
    ensures
        match outcome {
            Ok((lowered, request)) => {
                &&& transmission_for(routes.deep_view(), payload@, true) matches Ok(granted)
                &&& granted == request.deep_view()
                &&& lowered.identity() == handle.identity().lowered()
            },
            Err(failure) => {
                ||| transmission_for(routes.deep_view(), payload@, true) matches Err(due)
                    && due == failure
                ||| transmission_for(routes.deep_view(), payload@, false) matches Err(due)
                    && due == failure
            },
        },
{
    match combine(routes) {
        Ok(plan) => authorize(&plan, payload, handle.drop_privileges()),
        Err(failure) => Err(failure),
    }
}

} // verus!
