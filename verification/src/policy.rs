//! Which configuration governs a product's forwarding.
//!
//! `Pve` always forwards with its own files, empty where they are missing.
//! `Pbs` forwards with its own files if it has a public one. Without one it
//! falls back to the built-in defaults, unless `Pve` is installed too: then
//! `Pve`'s configuration is taken to cover the system's mail, and a second
//! delivery would duplicate it.

use vstd::prelude::*;
use crate::source::{ConfigSource, ConfigText, FileRead};

verus! {

/// What `Pbs` does, given what is installed.
#[derive(Clone, Copy, Debug, PartialEq, Eq, Structural)]
pub enum PbsPolicy {
    /// Forward with its own configuration files.
    OwnConfig,
    /// Forward with the built-in defaults.
    Defaults,
    /// Do not forward: `Pve` does.
    Suppressed,
}

/// The rule for `Pbs`: its own configuration takes precedence over
/// everything; only without one does the presence of `Pve` matter.
pub open spec fn pbs_rule(has_pve: bool, own_config: bool) -> PbsPolicy {
    if own_config {
        PbsPolicy::OwnConfig
    } else if has_pve {
        PbsPolicy::Suppressed
    } else {
        PbsPolicy::Defaults
    }
}

/// Decides what `Pbs` does. `has_pve` tells whether `Pve` is installed,
/// `own_config` whether `Pbs` has a public configuration file.
pub fn pbs_policy(has_pve: bool, own_config: bool) -> (policy: PbsPolicy)
    ensures
        policy == pbs_rule(has_pve, own_config),
        !own_config && has_pve ==> policy == PbsPolicy::Suppressed,
        own_config ==> policy == PbsPolicy::OwnConfig,
{
    if own_config {
        PbsPolicy::OwnConfig
    } else if has_pve {
        PbsPolicy::Suppressed
    } else {
        PbsPolicy::Defaults
    }
}

/// What the resolver of one product has found.
#[derive(Debug, PartialEq, Eq)]
pub enum Resolution {
    /// The product is not installed, or its resolver has not run yet.
    Absent,
    /// The product stands back: nothing is delivered for it.
    Suppressed,
    /// The product forwards, with these configuration texts.
    Forward(ConfigSource),
}

/// The mathematical value of a `Resolution`.
pub enum ResolutionView {
    Absent,
    Suppressed,
    Forward(ConfigText),
}

impl ResolutionView {
    /// The texts to forward with; the built-in defaults where there are none.
    pub open spec fn source(self) -> ConfigText {
        match self {
            ResolutionView::Forward(text) => text,
            _ => ConfigText::builtin(),
        }
    }

    /// Whether a delivery is to be attempted.
    pub open spec fn active(self) -> bool {
        self is Forward
    }
}

impl View for Resolution {
    type V = ResolutionView;

    open spec fn view(&self) -> ResolutionView {
        match self {
            Resolution::Absent => ResolutionView::Absent,
            Resolution::Suppressed => ResolutionView::Suppressed,
            Resolution::Forward(source) => ResolutionView::Forward(source@),
        }
    }
}

impl Resolution {
    /// Tells whether a delivery is to be attempted.
    pub fn is_active(&self) -> (active: bool)
        ensures
            active == self@.active(),
    {
        match self {
            Resolution::Forward(_) => true,
            _ => false,
        }
    }

    /// A copy of the texts to forward with; the built-in defaults where
    /// there are none.
    pub fn source(&self) -> (source: ConfigSource)
        ensures
            source@ == self@.source(),
    {
        match self {
            Resolution::Forward(source) => source.duplicate(),
            _ => ConfigSource::builtin(),
        }
    }
}

/// What `Pve`'s resolver finds: it forwards with what its two files hold,
/// an absent file standing for the empty text.
pub open spec fn pve_resolution(public: FileRead, private: FileRead) -> ResolutionView {
    ResolutionView::Forward(ConfigText { public: public.text(), private: private.text() })
}

/// What `Pbs`'s resolver finds. `own` is what the reads of its two files
/// brought if it has a public file, and `None` if it has not.
pub open spec fn pbs_resolution(
    has_pve: bool,
    own: Option<(FileRead, FileRead)>,
) -> ResolutionView {
    match own {
        Some((public, private)) => ResolutionView::Forward(
            ConfigText { public: public.text(), private: private.text() },
        ),
        None => if has_pve {
            ResolutionView::Suppressed
        } else {
            ResolutionView::Forward(ConfigText::builtin())
        },
    }
}

/// The resolver of `Pve`. It always forwards: nothing suppresses the
/// product, and missing or unreadable files only leave its texts empty.
pub fn resolve_pve(public: FileRead, private: FileRead) -> (resolution: Resolution)
    ensures
        resolution@ == pve_resolution(public, private),
        resolution@.active(),
{
    Resolution::Forward(ConfigSource::from_reads(public, private))
}

/// The resolver of `Pbs`. `has_pve` tells whether `Pve` is installed; `own`
/// is what the reads of `Pbs`'s two files brought if it has a public file,
/// and `None` if it has not.
///
/// With a public file of its own the product forwards with its files,
/// whatever else is installed. Without one it is suppressed if `Pve` is
/// installed, and forwards with the built-in defaults if not.
pub fn resolve_pbs(has_pve: bool, own: Option<(FileRead, FileRead)>) -> (resolution: Resolution)
    ensures
        resolution@ == pbs_resolution(has_pve, own),
        own is None && has_pve ==> resolution@ is Suppressed,
        own is Some ==> resolution@.active(),
{
    match own {
        Some((public, private)) => Resolution::Forward(ConfigSource::from_reads(public, private)),
        None => match pbs_policy(has_pve, false) {
            PbsPolicy::Suppressed => Resolution::Suppressed,
            _ => Resolution::Forward(ConfigSource::builtin()),
        },
    }
}

} // verus!
