//! The run of the forwarder as a state machine.
//!
//! The machine decides; the driver acts. Each `Action` names one piece of
//! outside work (a read, a probe of the file system, the lowering of the
//! identity, a delivery); the driver performs it and hands the answer back
//! as an `Event`. The machine never asks twice for the same thing, never
//! asks for a delivery before the identity has been lowered, and attempts
//! the deliveries one product after the other, `Pve` first, each on its own.

use vstd::prelude::*;
use crate::error::ForwardError;
use crate::policy::{pbs_policy, pbs_rule, PbsPolicy, Resolution, ResolutionView};
use crate::privilege::Dropped;
use crate::product::{ConfigFile, Product, ProductPresence};
use crate::source::{ConfigSource, ConfigText, FileRead};

verus! {

/// How a delivery attempt ended.
#[derive(Clone, Copy, Debug, PartialEq, Eq, Structural)]
pub enum DeliveryOutcome {
    /// The engine took the notification.
    Sent,
    /// The engine rejected the configuration texts as malformed.
    Malformed,
    /// The engine could not build or send the notification.
    Failed,
}

/// The failure to report for a delivery attempt of `product`, if any.
pub open spec fn delivery_failure(product: Product, outcome: DeliveryOutcome) -> Option<
    ForwardError,
> {
    match outcome {
        DeliveryOutcome::Sent => None,
        DeliveryOutcome::Malformed => Some(ForwardError::ConfigParse(product)),
        DeliveryOutcome::Failed => Some(ForwardError::Delivery(Some(product))),
    }
}

/// What the machine waits for.
#[derive(Clone, Copy, Debug, PartialEq, Eq)]
pub enum Stage {
    /// For the mail to be read from standard input.
    Payload,
    /// For the probe of the product's marker directory.
    Marker(Product),
    /// For the reading of one of `Pve`'s or `Pbs`'s configuration files.
    File(Product, ConfigFile),
    /// For the probe of `Pbs`'s public configuration file.
    OwnConfig,
    /// For the lowering of the identity.
    Lowering,
    /// For the delivery of the product, attempted under the lowered handle.
    Delivery(Product, Dropped),
    /// For nothing: the run is over.
    Done,
}

/// The answer to an `Action`.
#[derive(Debug, PartialEq, Eq)]
pub enum Event {
    /// The mail as it was read, or `None` if it could not be read.
    Payload(Option<Vec<u8>>),
    /// Whether the probed directory or file exists.
    Exists(bool),
    /// What the read of the file brought.
    File(FileRead),
    /// The lowered handle, or `None` if the system refused the lowering.
    Lowered(Option<Dropped>),
    /// How the delivery attempt ended.
    Delivered(DeliveryOutcome),
}

/// One delivery: the engine is to forward the mail `payload` for
/// `product`, with a configuration parsed from `source`, acting as user
/// `uid`.
#[derive(Debug, PartialEq, Eq)]
pub struct Delivery {
    pub product: Product,
    pub source: ConfigSource,
    pub payload: Vec<u8>,
    pub uid: u32,
}

/// The mathematical value of a `Delivery`.
pub struct DeliveryView {
    pub product: Product,
    pub source: ConfigText,
    pub payload: Seq<u8>,
    pub uid: u32,
}

impl View for Delivery {
    type V = DeliveryView;

    open spec fn view(&self) -> DeliveryView {
        DeliveryView {
            product: self.product,
            source: self.source@,
            payload: self.payload@,
            uid: self.uid,
        }
    }
}

/// The outside work that the driver is to do next.
#[derive(Debug, PartialEq, Eq)]
pub enum Action {
    /// Read the mail from standard input, to its end.
    ReadPayload,
    /// Tell whether the product's marker directory exists.
    ProbeMarker(Product),
    /// Read the product's configuration file.
    ReadFile(Product, ConfigFile),
    /// Tell whether `Pbs`'s public configuration file exists.
    ProbeOwnConfig,
    /// Lower the effective identity to the real one.
    DropPrivileges,
    /// Attempt the delivery.
    Deliver(Delivery),
    /// End the process.
    Exit,
}

/// The mathematical value of an `Action`.
pub enum ActionView {
    ReadPayload,
    ProbeMarker(Product),
    ReadFile(Product, ConfigFile),
    ProbeOwnConfig,
    DropPrivileges,
    Deliver(DeliveryView),
    Exit,
}

impl View for Action {
    type V = ActionView;

    open spec fn view(&self) -> ActionView {
        match self {
            Action::ReadPayload => ActionView::ReadPayload,
            Action::ProbeMarker(product) => ActionView::ProbeMarker(*product),
            Action::ReadFile(product, file) => ActionView::ReadFile(*product, *file),
            Action::ProbeOwnConfig => ActionView::ProbeOwnConfig,
            Action::DropPrivileges => ActionView::DropPrivileges,
            Action::Deliver(delivery) => ActionView::Deliver(delivery@),
            Action::Exit => ActionView::Exit,
        }
    }
}

/// The state of a run.
#[derive(Debug)]
pub struct Dispatcher {
    stage: Stage,
    payload: Vec<u8>,
    presence: ProductPresence,
    pve: Resolution,
    pbs: Resolution,
}

/// The mathematical value of a `Dispatcher`.
pub struct DispatcherView {
    pub stage: Stage,
    pub payload: Seq<u8>,
    pub presence: ProductPresence,
    pub pve: ResolutionView,
    pub pbs: ResolutionView,
}

/// What one step of the machine yields.
#[derive(Debug)]
pub struct Step {
    /// The state to continue with.
    pub next: Dispatcher,
    /// The failure to write to the log, if the answer was one.
    pub report: Option<ForwardError>,
    /// What to do next.
    pub action: Action,
}

/// The mathematical value of a `Step`.
pub struct StepView {
    pub next: DispatcherView,
    pub report: Option<ForwardError>,
    pub action: ActionView,
}

impl View for Dispatcher {
    type V = DispatcherView;

    closed spec fn view(&self) -> DispatcherView {
        DispatcherView {
            stage: self.stage,
            payload: self.payload@,
            presence: self.presence,
            pve: self.pve@,
            pbs: self.pbs@,
        }
    }
}

impl View for Step {
    type V = StepView;

    open spec fn view(&self) -> StepView {
        StepView { next: self.next@, report: self.report, action: self.action@ }
    }
}

impl DispatcherView {
    /// The state in which a run begins, once the mail has been asked for.
    pub open spec fn initial() -> DispatcherView {
        DispatcherView {
            stage: Stage::Payload,
            payload: Seq::empty(),
            presence: ProductPresence { pve: false, pbs: false },
            pve: ResolutionView::Absent,
            pbs: ResolutionView::Absent,
        }
    }

    /// The same state at another stage.
    pub open spec fn at(self, stage: Stage) -> DispatcherView {
        DispatcherView { stage, ..self }
    }

    /// What the resolver of the product has found so far.
    pub open spec fn resolution(self, product: Product) -> ResolutionView {
        match product {
            Product::Pve => self.pve,
            Product::Pbs => self.pbs,
        }
    }

    /// The same state with another resolution for the product.
    pub open spec fn resolved(
        self,
        product: Product,
        resolution: ResolutionView,
    ) -> DispatcherView {
        match product {
            Product::Pve => DispatcherView { pve: resolution, ..self },
            Product::Pbs => DispatcherView { pbs: resolution, ..self },
        }
    }

    /// The run ends, with or without a failure to report.
    pub open spec fn finish(self, report: Option<ForwardError>) -> StepView {
        StepView { next: self.at(Stage::Done), report, action: ActionView::Exit }
    }

    /// All resolvers have run: the identity is to be lowered.
    pub open spec fn lower(self, report: Option<ForwardError>) -> StepView {
        StepView { next: self.at(Stage::Lowering), report, action: ActionView::DropPrivileges }
    }

    /// The delivery of the product is to be attempted under the handle.
    pub open spec fn deliver(
        self,
        product: Product,
        handle: Dropped,
        report: Option<ForwardError>,
    ) -> StepView {
        StepView {
            next: self.at(Stage::Delivery(product, handle)),
            report,
            action: ActionView::Deliver(
                DeliveryView {
                    product,
                    source: self.resolution(product).source(),
                    payload: self.payload,
                    uid: handle.identity().real_id,
                },
            ),
        }
    }

    /// The mail is kept as it was read. Without it there is nothing to
    /// forward.
    pub open spec fn after_payload(self, read: Option<Vec<u8>>) -> StepView {
        match read {
            Some(payload) => StepView {
                next: DispatcherView {
                    stage: Stage::Marker(Product::Pve),
                    payload: payload@,
                    ..self
                },
                report: None,
                action: ActionView::ProbeMarker(Product::Pve),
            },
            None => self.finish(Some(ForwardError::InputRead)),
        }
    }

    /// `Pve` is probed first, then `Pbs`. After that the resolvers run:
    /// `Pve`'s if it is installed, then `Pbs`'s if it is. With neither
    /// installed the run ends at once.
    pub open spec fn after_marker(self, product: Product, installed: bool) -> StepView {
        match product {
            Product::Pve => StepView {
                next: DispatcherView {
                    stage: Stage::Marker(Product::Pbs),
                    presence: ProductPresence { pve: installed, pbs: self.presence.pbs },
                    ..self
                },
                report: None,
                action: ActionView::ProbeMarker(Product::Pbs),
            },
            Product::Pbs => {
                let found = DispatcherView {
                    presence: ProductPresence { pve: self.presence.pve, pbs: installed },
                    ..self
                };
                if found.presence.pve {
                    StepView {
                        next: found.at(Stage::File(Product::Pve, ConfigFile::Public)),
                        report: None,
                        action: ActionView::ReadFile(Product::Pve, ConfigFile::Public),
                    }
                } else if installed {
                    StepView {
                        next: found.at(Stage::OwnConfig),
                        report: None,
                        action: ActionView::ProbeOwnConfig,
                    }
                } else {
                    found.finish(None)
                }
            },
        }
    }

    /// The public file is read first, then the private one. A file that is
    /// missing or unreadable stands for the empty text; only the unreadable
    /// one is reported. With both read the product forwards.
    pub open spec fn after_file(
        self,
        product: Product,
        file: ConfigFile,
        read: FileRead,
    ) -> StepView {
        let report = read.failure(product);
        match file {
            ConfigFile::Public => StepView {
                next: self.resolved(
                    product,
                    ResolutionView::Forward(
                        ConfigText { public: read.text(), private: Seq::empty() },
                    ),
                ).at(Stage::File(product, ConfigFile::Private)),
                report,
                action: ActionView::ReadFile(product, ConfigFile::Private),
            },
            ConfigFile::Private => {
                let complete = self.resolved(
                    product,
                    ResolutionView::Forward(
                        ConfigText {
                            public: self.resolution(product).source().public,
                            private: read.text(),
                        },
                    ),
                );
                if product == Product::Pve && self.presence.pbs {
                    StepView {
                        next: complete.at(Stage::OwnConfig),
                        report,
                        action: ActionView::ProbeOwnConfig,
                    }
                } else {
                    complete.lower(report)
                }
            },
        }
    }

    /// `Pbs` reads its own files if it has a public one. Without one it
    /// stands back behind an installed `Pve`, and forwards with the
    /// built-in defaults where it is alone.
    pub open spec fn after_own_config(self, exists: bool) -> StepView {
        match pbs_rule(self.presence.pve, exists) {
            PbsPolicy::OwnConfig => StepView {
                next: self.at(Stage::File(Product::Pbs, ConfigFile::Public)),
                report: None,
                action: ActionView::ReadFile(Product::Pbs, ConfigFile::Public),
            },
            PbsPolicy::Defaults => self.resolved(
                Product::Pbs,
                ResolutionView::Forward(ConfigText::builtin()),
            ).lower(None),
            PbsPolicy::Suppressed => self.resolved(Product::Pbs, ResolutionView::Suppressed).lower(
                None,
            ),
        }
    }

    /// The delivery that is due from `product` on, if there is one.
    pub open spec fn next_delivery(
        self,
        product: Product,
        handle: Dropped,
        report: Option<ForwardError>,
    ) -> StepView {
        if product == Product::Pve && self.pve.active() {
            self.deliver(Product::Pve, handle, report)
        } else if self.pbs.active() {
            self.deliver(Product::Pbs, handle, report)
        } else {
            self.finish(report)
        }
    }

    /// A refused lowering ends the run. After a granted one the deliveries
    /// begin.
    pub open spec fn after_lowering(self, handle: Option<Dropped>) -> StepView {
        match handle {
            Some(handle) => self.next_delivery(Product::Pve, handle, None),
            None => self.finish(Some(ForwardError::PrivilegeDrop)),
        }
    }

    /// A failed delivery is reported and nothing more: what is due for the
    /// other product is attempted all the same.
    pub open spec fn after_delivery(
        self,
        product: Product,
        handle: Dropped,
        outcome: DeliveryOutcome,
    ) -> StepView {
        let report = delivery_failure(product, outcome);
        match product {
            Product::Pve => self.next_delivery(Product::Pbs, handle, report),
            Product::Pbs => self.finish(report),
        }
    }

    /// One step: the state and the answer give the next state, the failure
    /// to report and the next action. An answer to a question that was not
    /// asked ends the run.
    pub open spec fn transition(self, event: Event) -> StepView {
        match (self.stage, event) {
            (Stage::Payload, Event::Payload(read)) => self.after_payload(read),
            (Stage::Marker(product), Event::Exists(installed)) => self.after_marker(
                product,
                installed,
            ),
            (Stage::File(product, file), Event::File(read)) => self.after_file(product, file, read),
            (Stage::OwnConfig, Event::Exists(exists)) => self.after_own_config(exists),
            (Stage::Lowering, Event::Lowered(handle)) => self.after_lowering(handle),
            (Stage::Delivery(product, handle), Event::Delivered(outcome)) => self.after_delivery(
                product,
                handle,
                outcome,
            ),
            (Stage::Done, _) => self.finish(None),
            _ => self.finish(Some(ForwardError::OutOfTurn)),
        }
    }
}

impl Dispatcher {
    /// Begins a run: the first thing to do is to read the mail.
    pub fn start() -> (step: Step)
        ensures
            step@ == (StepView {
                next: DispatcherView::initial(),
                report: None,
                action: ActionView::ReadPayload,
            }),
    {
        Step {
            next: Dispatcher {
                stage: Stage::Payload,
                payload: Vec::new(),
                presence: ProductPresence::none(),
                pve: Resolution::Absent,
                pbs: Resolution::Absent,
            },
            report: None,
            action: Action::ReadPayload,
        }
    }

    /// Tells whether the run is over.
    pub fn is_done(&self) -> (done: bool)
        ensures
            done == (self@.stage is Done),
    {
        match self.stage {
            Stage::Done => true,
            _ => false,
        }
    }

    /// Which products were found installed, as far as they have been probed.
    pub fn presence(&self) -> (presence: ProductPresence)
        ensures
            presence == self@.presence,
    {
        self.presence
    }

    /// Goes on to `stage` and asks for `action`.
    fn ask(self, stage: Stage, report: Option<ForwardError>, action: Action) -> (step: Step)
        ensures
            step@ == (StepView { next: self@.at(stage), report, action: action@ }),
    {
        Step {
            next: Dispatcher {
                stage,
                payload: self.payload,
                presence: self.presence,
                pve: self.pve,
                pbs: self.pbs,
            },
            report,
            action,
        }
    }

    /// Ends the run.
    fn finish(self, report: Option<ForwardError>) -> (step: Step)
        ensures
            step@ == self@.finish(report),
    {
        self.ask(Stage::Done, report, Action::Exit)
    }

    /// Asks for the lowering of the identity.
    fn lower(self, report: Option<ForwardError>) -> (step: Step)
        ensures
            step@ == self@.lower(report),
    {
        self.ask(Stage::Lowering, report, Action::DropPrivileges)
    }

    /// Asks for the delivery of the product.
    fn deliver(self, product: Product, handle: Dropped, report: Option<ForwardError>) -> (step:
        Step)
        ensures
            step@ == self@.deliver(product, handle, report),
    {
        let source = match product {
            Product::Pve => self.pve.source(),
            Product::Pbs => self.pbs.source(),
        };
        let payload = self.payload.clone();
        let delivery = Delivery { product, source, payload, uid: handle.uid() };
        self.ask(Stage::Delivery(product, handle), report, Action::Deliver(delivery))
    }

    /// Records what the resolver of the product found.
    fn resolved(self, product: Product, resolution: Resolution) -> (state: Dispatcher)
        ensures
            state@ == self@.resolved(product, resolution@),
    {
        match product {
            Product::Pve => Dispatcher {
                stage: self.stage,
                payload: self.payload,
                presence: self.presence,
                pve: resolution,
                pbs: self.pbs,
            },
            Product::Pbs => Dispatcher {
                stage: self.stage,
                payload: self.payload,
                presence: self.presence,
                pve: self.pve,
                pbs: resolution,
            },
        }
    }

    /// Takes the mail.
    fn after_payload(self, read: Option<Vec<u8>>) -> (step: Step)
        ensures
            step@ == self@.after_payload(read),
    {
        match read {
            Some(payload) => Step {
                next: Dispatcher {
                    stage: Stage::Marker(Product::Pve),
                    payload,
                    presence: self.presence,
                    pve: self.pve,
                    pbs: self.pbs,
                },
                report: None,
                action: Action::ProbeMarker(Product::Pve),
            },
            None => self.finish(Some(ForwardError::InputRead)),
        }
    }

    /// Takes the answer to the probe of a marker directory.
    fn after_marker(self, product: Product, installed: bool) -> (step: Step)
        ensures
            step@ == self@.after_marker(product, installed),
    {
        let found = Dispatcher {
            stage: self.stage,
            payload: self.payload,
            presence: self.presence.with(product, installed),
            pve: self.pve,
            pbs: self.pbs,
        };
        match product {
            Product::Pve => found.ask(
                Stage::Marker(Product::Pbs),
                None,
                Action::ProbeMarker(Product::Pbs),
            ),
            Product::Pbs => {
                if found.presence.has(Product::Pve) {
                    found.ask(
                        Stage::File(Product::Pve, ConfigFile::Public),
                        None,
                        Action::ReadFile(Product::Pve, ConfigFile::Public),
                    )
                } else if installed {
                    found.ask(Stage::OwnConfig, None, Action::ProbeOwnConfig)
                } else {
                    found.finish(None)
                }
            },
        }
    }

    /// Takes what the read of a configuration file brought.
    fn after_file(self, product: Product, file: ConfigFile, read: FileRead) -> (step: Step)
        ensures
            step@ == self@.after_file(product, file, read),
    {
        let report = match read {
            FileRead::Unreadable => Some(ForwardError::FileRead(product)),
            _ => None,
        };
        match file {
            ConfigFile::Public => {
                let source = ConfigSource { public: read.into_text(), private: String::new() };
                self.resolved(product, Resolution::Forward(source)).ask(
                    Stage::File(product, ConfigFile::Private),
                    report,
                    Action::ReadFile(product, ConfigFile::Private),
                )
            },
            ConfigFile::Private => {
                let public = match product {
                    Product::Pve => self.pve.source().public,
                    Product::Pbs => self.pbs.source().public,
                };
                let to_pbs = match product {
                    Product::Pve => self.presence.has(Product::Pbs),
                    Product::Pbs => false,
                };
                let source = ConfigSource { public, private: read.into_text() };
                let complete = self.resolved(product, Resolution::Forward(source));
                if to_pbs {
                    complete.ask(Stage::OwnConfig, report, Action::ProbeOwnConfig)
                } else {
                    complete.lower(report)
                }
            },
        }
    }

    /// Takes the answer to the probe of `Pbs`'s public file.
    fn after_own_config(self, exists: bool) -> (step: Step)
        ensures
            step@ == self@.after_own_config(exists),
    {
        match pbs_policy(self.presence.has(Product::Pve), exists) {
            PbsPolicy::OwnConfig => self.ask(
                Stage::File(Product::Pbs, ConfigFile::Public),
                None,
                Action::ReadFile(Product::Pbs, ConfigFile::Public),
            ),
            PbsPolicy::Defaults => self.resolved(
                Product::Pbs,
                Resolution::Forward(ConfigSource::builtin()),
            ).lower(None),
            PbsPolicy::Suppressed => self.resolved(Product::Pbs, Resolution::Suppressed).lower(
                None,
            ),
        }
    }

    /// Asks for the delivery that is due from `product` on, or ends the run.
    fn next_delivery(
        self,
        product: Product,
        handle: Dropped,
        report: Option<ForwardError>,
    ) -> (step: Step)
        ensures
            step@ == self@.next_delivery(product, handle, report),
    {
        let pve_due = match product {
            Product::Pve => self.pve.is_active(),
            Product::Pbs => false,
        };
        if pve_due {
            self.deliver(Product::Pve, handle, report)
        } else if self.pbs.is_active() {
            self.deliver(Product::Pbs, handle, report)
        } else {
            self.finish(report)
        }
    }

    /// Takes the outcome of a delivery.
    fn after_delivery(self, product: Product, handle: Dropped, outcome: DeliveryOutcome) -> (step:
        Step)
        ensures
            step@ == self@.after_delivery(product, handle, outcome),
    {
        let report = match outcome {
            DeliveryOutcome::Sent => None,
            DeliveryOutcome::Malformed => Some(ForwardError::ConfigParse(product)),
            DeliveryOutcome::Failed => Some(ForwardError::Delivery(Some(product))),
        };
        match product {
            Product::Pve => self.next_delivery(Product::Pbs, handle, report),
            Product::Pbs => self.finish(report),
        }
    }

    /// Takes the answer to the last action and says what to do next.
    ///
    /// The step is a function of the state and the answer alone. It is
    /// total: an answer that does not fit the question ends the run with
    /// `OutOfTurn`, and once the run is over every answer yields `Exit`.
    pub fn step(self, event: Event) -> (step: Step)
        ensures
            step@ == self@.transition(event),
    {
        match self.stage {
            Stage::Payload => match event {
                Event::Payload(read) => self.after_payload(read),
                _ => self.finish(Some(ForwardError::OutOfTurn)),
            },
            Stage::Marker(product) => match event {
                Event::Exists(installed) => self.after_marker(product, installed),
                _ => self.finish(Some(ForwardError::OutOfTurn)),
            },
            Stage::File(product, file) => match event {
                Event::File(read) => self.after_file(product, file, read),
                _ => self.finish(Some(ForwardError::OutOfTurn)),
            },
            Stage::OwnConfig => match event {
                Event::Exists(exists) => self.after_own_config(exists),
                _ => self.finish(Some(ForwardError::OutOfTurn)),
            },
            Stage::Lowering => match event {
                Event::Lowered(Some(handle)) => self.next_delivery(Product::Pve, handle, None),
                Event::Lowered(None) => self.finish(Some(ForwardError::PrivilegeDrop)),
                _ => self.finish(Some(ForwardError::OutOfTurn)),
            },
            Stage::Delivery(product, handle) => match event {
                Event::Delivered(outcome) => self.after_delivery(product, handle, outcome),
                _ => self.finish(Some(ForwardError::OutOfTurn)),
            },
            Stage::Done => self.finish(None),
        }
    }
}

} // verus!
