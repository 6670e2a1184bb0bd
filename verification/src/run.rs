//! Whole runs of the machine, and what holds of every one of them.
//!
//! A run is the sequence of answers that the driver gives. Whatever the
//! answers are, the laws below hold: they are proved of every sequence of
//! events, fitting or not.

use vstd::prelude::*;
use crate::dispatch::{
    delivery_failure, ActionView, DeliveryOutcome, DeliveryView, DispatcherView, Event, Stage,
    StepView,
};
use crate::error::ForwardError;
use crate::policy::{pbs_resolution, pve_resolution, ResolutionView};
use crate::privilege::Dropped;
use crate::product::{ConfigFile, Product};
use crate::source::{ConfigText, FileRead};

verus! {

impl Stage {
    /// The place of a stage in the one order in which a run passes the
    /// stages. A run may skip stages; it never goes back.
    pub open spec fn rank(self) -> nat {
        match self {
            Stage::Payload => 0,
            Stage::Marker(Product::Pve) => 1,
            Stage::Marker(Product::Pbs) => 2,
            Stage::File(Product::Pve, ConfigFile::Public) => 3,
            Stage::File(Product::Pve, ConfigFile::Private) => 4,
            Stage::OwnConfig => 5,
            Stage::File(Product::Pbs, ConfigFile::Public) => 6,
            Stage::File(Product::Pbs, ConfigFile::Private) => 7,
            Stage::Lowering => 8,
            Stage::Delivery(Product::Pve, _) => 9,
            Stage::Delivery(Product::Pbs, _) => 10,
            Stage::Done => 11,
        }
    }

    /// Whether the answer awaited is the content of a file of the product.
    pub open spec fn reads(self, product: Product) -> bool {
        match self {
            Stage::File(owner, _) => owner == product,
            _ => false,
        }
    }

    /// Whether the answer awaited is one to the resolver of the product.
    pub open spec fn resolves(self, product: Product) -> bool {
        self.reads(product) || (product == Product::Pbs && self is OwnConfig)
    }

    /// Whether the answer awaited is the outcome of the product's delivery.
    pub open spec fn delivering(self, product: Product) -> bool {
        match self {
            Stage::Delivery(owner, _) => owner == product,
            _ => false,
        }
    }
}

impl DispatcherView {
    /// What holds of every state that a run can reach: the resolutions fit
    /// what was found installed, and each stage is reached only with what
    /// the stages before it have established.
    pub open spec fn consistent(self) -> bool {
        // `Pve` is never suppressed, and only an installed product resolves.
        &&& !(self.pve is Suppressed)
        &&& self.pve.active() ==> self.presence.pve
        &&& !(self.pbs is Absent) ==> self.presence.pbs
        // `Pbs` stands back only behind a `Pve` that forwards.
        &&& self.pbs is Suppressed ==> self.pve.active()
        // Before a product's first file is read, its resolver has not run.
        &&& self.stage.rank() <= Stage::File(Product::Pve, ConfigFile::Public).rank()
            ==> self.pve is Absent
        &&& self.stage.rank() <= Stage::File(Product::Pbs, ConfigFile::Public).rank()
            ==> self.pbs is Absent
        // `Pve`'s files are read only if it is installed.
        &&& self.stage.reads(Product::Pve) ==> self.presence.pve
        &&& self.stage == Stage::File(Product::Pve, ConfigFile::Private) ==> self.pve.active()
        // `Pbs`'s resolver runs only if it is installed, and after `Pve`'s.
        &&& self.stage.resolves(Product::Pbs) ==> {
            &&& self.presence.pbs
            &&& self.pve.active() == self.presence.pve
        }
        &&& self.stage == Stage::File(Product::Pbs, ConfigFile::Private) ==> self.pbs.active()
        // The identity is lowered only if something is to be delivered, and
        // a delivery is awaited only for a product that forwards.
        &&& self.stage is Lowering || self.stage is Delivery ==> self.pve.active()
            || self.pbs.active()
        &&& self.stage.delivering(Product::Pve) ==> self.pve.active()
        &&& self.stage.delivering(Product::Pbs) ==> self.pbs.active()
    }
}

/// The state after the first `n` answers of a run.
pub open spec fn state_after(events: Seq<Event>, n: nat) -> DispatcherView
    decreases n,
{
    if n == 0 {
        DispatcherView::initial()
    } else {
        state_after(events, (n - 1) as nat).transition(events[n - 1]).next
    }
}

/// What the machine yields on answer number `n` of a run, counted from zero.
pub open spec fn step_at(events: Seq<Event>, n: nat) -> StepView {
    state_after(events, n).transition(events[n as int])
}

/// Whether the action is the delivery of the product.
pub open spec fn delivers(action: ActionView, product: Product) -> bool {
    action matches ActionView::Deliver(delivery) && delivery.product == product
}

/// Every step leads to a later stage, but for the steps of a finished run,
/// which change nothing and ask for nothing but the exit.
pub proof fn lemma_step_advances(state: DispatcherView, event: Event)
    ensures
        !(state.stage is Done) ==> state.transition(event).next.stage.rank() > state.stage.rank(),
        state.stage is Done ==> state.transition(event) == (StepView {
            next: state,
            report: None,
            action: ActionView::Exit,
        }),
{
}

/// Every step keeps a consistent state consistent.
pub proof fn lemma_step_keeps_consistency(state: DispatcherView, event: Event)
    requires
        state.consistent(),
    ensures
        state.transition(event).next.consistent(),
{
}

/// What has been found stays as it was found. The mail changes only with
/// the answer that brings it, the flag of a product only with the answer to
/// the probe of its marker, and the resolution of a product only with the
/// answers to the questions of its resolver.
pub proof fn lemma_step_keeps_record(state: DispatcherView, event: Event)
    ensures
        ({
            let next = state.transition(event).next;
            &&& next.payload == state.payload || state.stage is Payload
            &&& next.presence.pve == state.presence.pve || state.stage == Stage::Marker(
                Product::Pve,
            )
            &&& next.presence.pbs == state.presence.pbs || state.stage == Stage::Marker(
                Product::Pbs,
            )
            &&& next.pve == state.pve || state.stage.resolves(Product::Pve)
            &&& next.pbs == state.pbs || state.stage.resolves(Product::Pbs)
        }),
{
}

/// The action of a step tells the stage that it leads to: the run is over
/// exactly when the action is `Exit`, and a delivery is asked for exactly
/// when its answer is awaited next.
pub proof fn lemma_action_fits_stage(state: DispatcherView, event: Event)
    ensures
        ({
            let step = state.transition(event);
            match step.action {
                ActionView::ReadPayload => false,
                ActionView::ProbeMarker(product) => step.next.stage == Stage::Marker(product),
                ActionView::ReadFile(product, file) => step.next.stage == Stage::File(
                    product,
                    file,
                ),
                ActionView::ProbeOwnConfig => step.next.stage == Stage::OwnConfig,
                ActionView::DropPrivileges => step.next.stage == Stage::Lowering,
                ActionView::Deliver(delivery) => {
                    &&& step.next.stage matches Stage::Delivery(product, handle)
                    &&& product == delivery.product
                    &&& handle.identity().real_id == delivery.uid
                    &&& delivery.payload == state.payload
                    &&& step.next.resolution(product) == state.resolution(product)
                    &&& state.resolution(product) == ResolutionView::Forward(delivery.source)
                    &&& state.stage is Lowering || state.stage.delivering(Product::Pve)
                },
                ActionView::Exit => step.next.stage is Done,
            }
        }),
{
}

/// Every state of a run is consistent.
pub proof fn lemma_run_is_consistent(events: Seq<Event>, n: nat)
    requires
        n <= events.len(),
    ensures
        state_after(events, n).consistent(),
    decreases n,
{
    if n > 0 {
        lemma_run_is_consistent(events, (n - 1) as nat);
        lemma_step_keeps_consistency(state_after(events, (n - 1) as nat), events[n - 1]);
    }
}

/// A run never goes back: a later state is at a later stage, unless the run
/// was over already.
pub proof fn lemma_run_advances(events: Seq<Event>, earlier: nat, later: nat)
    requires
        later <= events.len(),
        earlier <= later,
    ensures
        state_after(events, earlier).stage.rank() <= state_after(events, later).stage.rank(),
        earlier < later && !(state_after(events, earlier).stage is Done) ==> state_after(
            events,
            earlier,
        ).stage.rank() < state_after(events, later).stage.rank(),
        state_after(events, earlier).stage is Done ==> state_after(events, later)
            == state_after(events, earlier),
    decreases later,
{
    if earlier < later {
        lemma_run_advances(events, earlier, (later - 1) as nat);
        lemma_step_advances(state_after(events, (later - 1) as nat), events[later - 1]);
    }
}

/// The mail is kept as it was read: every later state of the run holds the
/// very bytes of the first answer, and a run whose first answer brings no
/// mail is over at once.
pub proof fn lemma_payload_is_kept(events: Seq<Event>, n: nat)
    requires
        1 <= n <= events.len(),
    ensures
        match events[0] {
            Event::Payload(Some(payload)) => state_after(events, n).payload == payload@,
            _ => state_after(events, n).stage is Done,
        },
    decreases n,
{
    if n > 1 {
        lemma_payload_is_kept(events, (n - 1) as nat);
        lemma_step_keeps_record(state_after(events, (n - 1) as nat), events[n - 1]);
        lemma_run_advances(events, 1, (n - 1) as nat);
    }
}

/// Every delivery that is asked for carries the mail as it was read.
pub proof fn lemma_delivery_carries_payload(events: Seq<Event>, n: nat)
    requires
        n < events.len(),
        step_at(events, n).action is Deliver,
    ensures
        events[0] matches Event::Payload(Some(payload)) && step_at(
            events,
            n,
        ).action->Deliver_0.payload == payload@,
{
    lemma_action_fits_stage(state_after(events, n), events[n as int]);
    lemma_run_advances(events, 0, n);
    lemma_payload_is_kept(events, n);
}

/// Every run is over after eleven answers at the latest: one for the mail,
/// two for the markers, five for the files and the probe of `Pbs`'s own
/// file, one for the lowering and two for the deliveries.
pub proof fn lemma_run_ends(events: Seq<Event>, n: nat)
    requires
        n <= events.len(),
    ensures
        n <= 11 ==> state_after(events, n).stage.rank() >= n,
        n >= 11 ==> state_after(events, n).stage is Done,
    decreases n,
{
    if n > 0 {
        lemma_run_ends(events, (n - 1) as nat);
        lemma_step_advances(state_after(events, (n - 1) as nat), events[n - 1]);
    }
}

/// Nothing is asked for twice in a run: no file is read again, no probe
/// repeated, the lowering and each delivery attempted once at most. The one
/// action that can recur is `Exit`.
pub proof fn lemma_nothing_is_asked_twice(events: Seq<Event>, first: nat, second: nat)
    requires
        second < events.len(),
        first < second,
        step_at(events, first).action == step_at(events, second).action,
    ensures
        step_at(events, first).action is Exit,
{
    lemma_action_fits_stage(state_after(events, first), events[first as int]);
    lemma_action_fits_stage(state_after(events, second), events[second as int]);
    lemma_run_advances(events, first + 1, second + 1);
}

/// The deliveries come in the order of the products: once `Pbs`'s has been
/// asked for, `Pve`'s no longer is.
pub proof fn lemma_pve_is_delivered_first(events: Seq<Event>, first: nat, second: nat)
    requires
        second < events.len(),
        first < second,
        delivers(step_at(events, first).action, Product::Pbs),
    ensures
        !(step_at(events, second).action is Deliver),
{
    lemma_action_fits_stage(state_after(events, first), events[first as int]);
    lemma_action_fits_stage(state_after(events, second), events[second as int]);
    lemma_run_advances(events, first + 1, second + 1);
}

/// A delivery is asked for only after the lowering was granted, and it acts
/// under the real user id of the handle that the lowering gave.
pub proof fn lemma_delivery_follows_lowering(events: Seq<Event>, n: nat) -> (k: nat)
    requires
        n < events.len(),
        step_at(events, n).action is Deliver,
    ensures
        k <= n,
        state_after(events, k).stage is Lowering,
        events[k as int] matches Event::Lowered(Some(handle)) && handle.identity().real_id
            == step_at(events, n).action->Deliver_0.uid,
    decreases n,
{
    let state = state_after(events, n);
    lemma_action_fits_stage(state, events[n as int]);
    if state.stage is Lowering {
        n
    } else {
        assert(state.stage.delivering(Product::Pve));
        assert(n > 0);
        let before = (n - 1) as nat;
        lemma_action_fits_stage(state_after(events, before), events[before as int]);
        assert(step_at(events, before).action is Deliver);
        lemma_delivery_follows_lowering(events, before)
    }
}

/// A refused lowering is reported as `PrivilegeDrop` and ends the run: from
/// then on the machine asks for nothing but the exit, so that no delivery
/// is attempted and no process started.
pub proof fn lemma_refused_lowering_ends_run(events: Seq<Event>, k: nat, n: nat)
    requires
        n < events.len(),
        state_after(events, k).stage is Lowering,
        events[k as int] == Event::Lowered(None),
        k <= n,
    ensures
        step_at(events, k).report == Some(ForwardError::PrivilegeDrop),
        step_at(events, n).action is Exit,
        state_after(events, n + 1).stage is Done,
{
    lemma_run_advances(events, k + 1, n + 1);
    if k < n {
        lemma_run_advances(events, k + 1, n);
    }
}

/// In a run with a refused lowering no delivery is asked for at all,
/// neither before the refusal nor after it.
pub proof fn lemma_no_delivery_without_lowering(events: Seq<Event>, k: nat, n: nat)
    requires
        k < events.len(),
        n < events.len(),
        state_after(events, k).stage is Lowering,
        events[k as int] == Event::Lowered(None),
    ensures
        !(step_at(events, n).action is Deliver),
{
    if k <= n {
        lemma_refused_lowering_ends_run(events, k, n);
    } else {
        lemma_action_fits_stage(state_after(events, n), events[n as int]);
        lemma_run_advances(events, n, k);
    }
}

/// Without a public file of its own, `Pbs` stands back behind an installed
/// `Pve`: its route is suppressed, and no step of the run asks for its
/// delivery.
pub proof fn lemma_pbs_stands_back(events: Seq<Event>, k: nat, n: nat)
    requires
        k < events.len(),
        n < events.len(),
        state_after(events, k).stage is OwnConfig,
        state_after(events, k).presence.pve,
        events[k as int] == Event::Exists(false),
    ensures
        state_after(events, k + 1).pbs is Suppressed,
        step_at(events, k).action is DropPrivileges,
        !delivers(step_at(events, n).action, Product::Pbs),
{
    lemma_action_fits_stage(state_after(events, n), events[n as int]);
    if n <= k {
        lemma_run_advances(events, n, k);
    } else {
        lemma_suppression_lasts(events, k + 1, n);
    }
}

/// The presence of the products is found once and not looked at again:
/// after the two probes the flags stay as they are.
pub proof fn lemma_presence_is_final(events: Seq<Event>, earlier: nat, later: nat)
    requires
        earlier <= later,
        later <= events.len(),
        state_after(events, earlier).stage.rank() > Stage::Marker(Product::Pbs).rank(),
    ensures
        state_after(events, later).presence == state_after(events, earlier).presence,
    decreases later,
{
    if earlier < later {
        lemma_presence_is_final(events, earlier, (later - 1) as nat);
        lemma_run_advances(events, earlier, (later - 1) as nat);
        lemma_step_keeps_record(state_after(events, (later - 1) as nat), events[later - 1]);
    }
}

/// Once the resolvers have run, what they found stays as it is.
pub proof fn lemma_resolution_is_final(events: Seq<Event>, earlier: nat, later: nat)
    requires
        later <= events.len(),
        earlier <= later,
        state_after(events, earlier).stage.rank() >= Stage::Lowering.rank(),
    ensures
        state_after(events, later).pve == state_after(events, earlier).pve,
        state_after(events, later).pbs == state_after(events, earlier).pbs,
        state_after(events, later).stage.rank() >= Stage::Lowering.rank(),
    decreases later,
{
    if earlier < later {
        lemma_resolution_is_final(events, earlier, (later - 1) as nat);
        lemma_step_advances(state_after(events, (later - 1) as nat), events[later - 1]);
        lemma_step_keeps_record(state_after(events, (later - 1) as nat), events[later - 1]);
    }
}

/// A suppressed route stays suppressed to the end of the run.
pub proof fn lemma_suppression_lasts(events: Seq<Event>, earlier: nat, later: nat)
    requires
        later <= events.len(),
        earlier <= later,
        state_after(events, earlier).pbs is Suppressed,
    ensures
        state_after(events, later).pbs is Suppressed,
{
    lemma_run_is_consistent(events, earlier);
    lemma_resolution_is_final(events, earlier, later);
}

/// Where neither product is installed the run ends with the second probe:
/// no file is read, the identity is left alone, nothing is delivered and
/// nothing reported.
pub proof fn lemma_nothing_installed_ends_run(state: DispatcherView)
    requires
        state.stage == Stage::Marker(Product::Pbs),
        !state.presence.pve,
    ensures
        ({
            let step = state.transition(Event::Exists(false));
            &&& step.action is Exit
            &&& step.report is None
            &&& step.next.stage is Done
            &&& step.next.pve == state.pve
            &&& step.next.pbs == state.pbs
        }),
{
}

/// Where `Pbs` is installed alone and has no public file, it forwards with
/// the built-in defaults: after the lowering exactly one delivery is asked
/// for, with the empty configuration, and then the run ends.
pub proof fn lemma_pbs_alone_uses_defaults(
    state: DispatcherView,
    handle: Dropped,
    outcome: DeliveryOutcome,
)
    requires
        state.consistent(),
        state.stage is OwnConfig,
        !state.presence.pve,
    ensures
        ({
            let resolved = state.transition(Event::Exists(false));
            let lowered = resolved.next.transition(Event::Lowered(Some(handle)));
            let delivered = lowered.next.transition(Event::Delivered(outcome));
            &&& resolved.action is DropPrivileges
            &&& resolved.next.pbs == ResolutionView::Forward(ConfigText::builtin())
            &&& lowered.action == ActionView::Deliver(
                DeliveryView {
                    product: Product::Pbs,
                    source: ConfigText::builtin(),
                    payload: state.payload,
                    uid: handle.identity().real_id,
                },
            )
            &&& delivered.action is Exit
            &&& delivered.report == delivery_failure(Product::Pbs, outcome)
        }),
{
}

/// With a public file of its own, `Pbs` reads its files and forwards with
/// them, whether `Pve` is installed or not: its route is never suppressed.
pub proof fn lemma_own_config_takes_precedence(events: Seq<Event>, k: nat, n: nat)
    requires
        k < events.len(),
        n <= events.len(),
        state_after(events, k).stage is OwnConfig,
        events[k as int] == Event::Exists(true),
    ensures
        step_at(events, k).action == ActionView::ReadFile(Product::Pbs, ConfigFile::Public),
        !(state_after(events, n).pbs is Suppressed),
    decreases n,
{
    lemma_run_is_consistent(events, n);
    if n > k + 1 {
        lemma_own_config_takes_precedence(events, k, (n - 1) as nat);
        lemma_run_advances(events, k + 1, (n - 1) as nat);
    } else if n < k {
        lemma_run_advances(events, n, k);
    }
}

/// The machine resolves `Pve` as its resolver says: it asks for the public
/// file, then for the private one, and forwards with what they hold.
pub proof fn lemma_pve_is_resolved(state: DispatcherView, public: FileRead, private: FileRead)
    requires
        state.stage == Stage::File(Product::Pve, ConfigFile::Public),
    ensures
        ({
            let half = state.transition(Event::File(public));
            let full = half.next.transition(Event::File(private));
            &&& half.action == ActionView::ReadFile(Product::Pve, ConfigFile::Private)
            &&& half.report == public.failure(Product::Pve)
            &&& full.report == private.failure(Product::Pve)
            &&& full.next.pve == pve_resolution(public, private)
            &&& full.next.pbs == state.pbs
        }),
{
}

/// The machine resolves `Pbs` as its resolver says. Without a public file
/// no file is read, and the product is suppressed behind an installed `Pve`
/// and forwards with the built-in defaults else. With one, the two files
/// are read and the product forwards with what they hold, whatever `Pve`
/// has.
pub proof fn lemma_pbs_is_resolved(state: DispatcherView, public: FileRead, private: FileRead)
    requires
        state.stage is OwnConfig,
    ensures
        ({
            let without = state.transition(Event::Exists(false));
            let asked = state.transition(Event::Exists(true));
            let half = asked.next.transition(Event::File(public));
            let full = half.next.transition(Event::File(private));
            &&& without.action == ActionView::DropPrivileges
            &&& without.next.pbs == pbs_resolution(state.presence.pve, None)
            &&& without.next.pve == state.pve
            &&& asked.action == ActionView::ReadFile(Product::Pbs, ConfigFile::Public)
            &&& half.action == ActionView::ReadFile(Product::Pbs, ConfigFile::Private)
            &&& full.action == ActionView::DropPrivileges
            &&& full.next.pbs == pbs_resolution(state.presence.pve, Some((public, private)))
            &&& full.next.pve == state.pve
        }),
{
}

/// After a granted lowering every route that forwards gets its attempt:
/// `Pve`'s at once, `Pbs`'s at once where `Pve` does not forward, and else
/// right after `Pve`'s attempt, however that one ended.
pub proof fn lemma_each_route_is_attempted(
    state: DispatcherView,
    handle: Dropped,
    outcome: DeliveryOutcome,
)
    requires
        state.stage is Lowering,
    ensures
        ({
            let first = state.transition(Event::Lowered(Some(handle)));
            let second = first.next.transition(Event::Delivered(outcome));
            let uid = handle.identity().real_id;
            &&& state.pve matches ResolutionView::Forward(source) ==> first.action
                == ActionView::Deliver(DeliveryView {
                    product: Product::Pve,
                    source,
                    payload: state.payload,
                    uid,
                })
            &&& state.pbs matches ResolutionView::Forward(source) ==> {
                if state.pve.active() {
                    &&& second.action == ActionView::Deliver(
                        DeliveryView { product: Product::Pbs, source, payload: state.payload, uid },
                    )
                    &&& second.report == delivery_failure(Product::Pve, outcome)
                } else {
                    first.action == ActionView::Deliver(
                        DeliveryView { product: Product::Pbs, source, payload: state.payload, uid },
                    )
                }
            }
            &&& first.report is None
        }),
{
}

/// A missing file is no failure, and an unreadable one is a failure of its
/// product alone: either way the file stands for the empty text and the run
/// goes on.
pub proof fn lemma_absent_file_is_not_fatal(
    state: DispatcherView,
    product: Product,
    file: ConfigFile,
    read: FileRead,
)
    requires
        state.stage == Stage::File(product, file),
    ensures
        ({
            let step = state.transition(Event::File(read));
            &&& step.report == read.failure(product)
            &&& read is Missing ==> step.report is None
            &&& read is Unreadable ==> step.report == Some(ForwardError::FileRead(product))
            &&& step.report matches Some(failure) ==> !failure.fatal() && failure.scope() == Some(
                product,
            )
            &&& !(step.next.stage is Done)
            &&& !(read is Content) ==> match file {
                ConfigFile::Public => step.next.resolution(product).source().public
                    == Seq::<char>::empty(),
                ConfigFile::Private => step.next.resolution(product).source().private
                    == Seq::<char>::empty(),
            }
        }),
{
}

/// A delivery that fails, be it for a malformed configuration, is a failure
/// of its product alone: it is reported, it is not fatal, and the delivery
/// of the other product is asked for just as after a success.
pub proof fn lemma_delivery_failure_is_not_fatal(
    state: DispatcherView,
    product: Product,
    handle: Dropped,
    outcome: DeliveryOutcome,
)
    requires
        state.stage == Stage::Delivery(product, handle),
    ensures
        ({
            let step = state.transition(Event::Delivered(outcome));
            let success = state.transition(Event::Delivered(DeliveryOutcome::Sent));
            &&& outcome is Malformed ==> step.report == Some(ForwardError::ConfigParse(product))
            &&& outcome is Failed ==> step.report == Some(ForwardError::Delivery(Some(product)))
            &&& outcome is Sent ==> step.report is None
            &&& step.report matches Some(failure) ==> !failure.fatal() && failure.scope() == Some(
                product,
            )
            &&& step.action == success.action
            &&& step.next == success.next
        }),
{
}

/// A step that reports a fatal failure ends the run.
pub proof fn lemma_fatal_failure_ends_run(state: DispatcherView, event: Event)
    ensures
        ({
            let step = state.transition(event);
            step.report matches Some(failure) && failure.fatal() ==> step.next.stage is Done
                && step.action is Exit
        }),
{
}

} // verus!
