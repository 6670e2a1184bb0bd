//! The resolvers for forwarding by direct invocation of the mail transport
//! agent: whom a product's user accounts name as the recipient of the
//! superuser's mail, and as whom its site configuration wants to send.
//!
//! The file formats are not this library's business. The driver parses the
//! files and hands over what it found; the rules on what counts are here.

use vstd::prelude::*;
use crate::error::ForwardError;
use crate::product::Product;
use crate::route::{ResolvedRoute, RouteView};
use crate::text::{normalize, normalized_field};

verus! {

/// What the reading and parsing of one configuration file brought.
#[derive(Debug, PartialEq, Eq)]
pub enum Lookup<T> {
    /// There is no such file.
    Missing,
    /// The file exists but reading it failed.
    Unreadable,
    /// The file was read but its content is malformed.
    Malformed,
    /// The file was read and parsed.
    Found(T),
}

impl<T> Lookup<T> {
    /// What was found, if anything was.
    pub open spec fn value(self) -> Option<T> {
        match self {
            Lookup::Found(value) => Some(value),
            _ => None,
        }
    }

    /// The failure to report for this lookup in a file of `product`. A
    /// missing file is none.
    pub open spec fn failure(self, product: Product) -> Option<ForwardError> {
        match self {
            Lookup::Unreadable => Some(ForwardError::FileRead(product)),
            Lookup::Malformed => Some(ForwardError::ConfigParse(product)),
            _ => None,
        }
    }

    /// Turns the lookup into the value to work with and the failure to
    /// report. A file that is unreadable or malformed is reported and then
    /// counts as missing: no such failure is fatal.
    pub fn settle(self, product: Product) -> (outcome: (Option<T>, Option<ForwardError>))
        ensures
            outcome.0 == self.value(),
            outcome.1 == self.failure(product),
            outcome.1 matches Some(failure) ==> !failure.fatal() && failure.scope() == Some(
                product,
            ),
    {
        match self {
            Lookup::Missing => (None, None),
            Lookup::Unreadable => (None, Some(ForwardError::FileRead(product))),
            Lookup::Malformed => (None, Some(ForwardError::ConfigParse(product))),
            Lookup::Found(value) => (Some(value), None),
        }
    }
}

/// One user account of a product, as far as forwarding looks at it.
#[derive(Debug, PartialEq, Eq)]
pub struct UserEntry {
    /// The id of the account.
    pub userid: String,
    /// The mail address of the account, as the file has it.
    pub email: Option<String>,
}

/// The mathematical value of a `UserEntry`.
pub struct UserEntryView {
    pub userid: Seq<char>,
    pub email: Option<Seq<char>>,
}

impl DeepView for UserEntry {
    type V = UserEntryView;

    open spec fn deep_view(&self) -> UserEntryView {
        UserEntryView { userid: self.userid@, email: self.email.deep_view() }
    }
}

/// The id of the superuser's account.
pub open spec fn root_account() -> Seq<char> {
    "root@pam"@
}

/// Whether entry `at` is the first one of the account.
pub open spec fn is_first_entry(entries: Seq<UserEntryView>, account: Seq<char>, at: int) -> bool {
    &&& 0 <= at < entries.len()
    &&& entries[at].userid == account
    &&& forall|k: int| 0 <= k < at ==> (#[trigger] entries[k]).userid != account
}

/// The address to which the account's mail goes: the normalized address of
/// the first entry of the account. Later entries of the account do not
/// count, even if the first one names no address.
pub open spec fn recipient_in(entries: Seq<UserEntryView>, account: Seq<char>) -> Option<
    Seq<char>,
> {
    if exists|at: int| is_first_entry(entries, account, at) {
        normalized_field(entries[choose|at: int| is_first_entry(entries, account, at)].email)
    } else {
        None
    }
}

/// The route that a product's files resolve to: the superuser's address as
/// the one recipient, if the accounts name one, and the normalized sender.
/// A resolver of this kind never suppresses.
pub open spec fn route_of(
    entries: Option<Seq<UserEntryView>>,
    sender: Option<Seq<char>>,
) -> RouteView {
    RouteView {
        sender: normalized_field(sender),
        recipients: match entries {
            Some(entries) => match recipient_in(entries, root_account()) {
                Some(address) => seq![address],
                None => Seq::empty(),
            },
            None => Seq::empty(),
        },
        suppress: false,
    }
}

/// Looks up the address to which the mail of `account` goes.
///
/// The first entry of the account wins. Its address is normalized: a blank
/// one counts as absent.
pub fn recipient_of(entries: &Vec<UserEntry>, account: &str) -> (address: Option<String>)
    ensures
        address.deep_view() == recipient_in(entries.deep_view(), account@),
{
    let ghost all = entries.deep_view();
    let wanted: String = account.to_owned();
    let mut i: usize = 0;
    while i < entries.len()
        invariant
            i <= entries.len(),
            wanted@ == account@,
            all == entries.deep_view(),
            forall|k: int| 0 <= k < i ==> (#[trigger] all[k]).userid != account@,
        decreases entries.len() - i,
    {
        let entry = &entries[i];
        if entry.userid == wanted {
            proof {
                assert(all[i as int] == entry.deep_view());
                assert(is_first_entry(all, account@, i as int));
                let chosen = choose|at: int| is_first_entry(all, account@, at);
                assert(chosen == i) by {
                    if chosen < i {
                        assert(all[chosen].userid != account@);
                    }
                    if chosen > i {
                        assert(all[i as int].userid != account@);
                    }
                }
            }
            return match &entry.email {
                Some(email) => normalize(Some(email.as_str())),
                None => None,
            };
        }
        i = i + 1;
    }
    proof {
        assert forall|at: int| !is_first_entry(all, account@, at) by {
            if 0 <= at < all.len() {
                assert(all[at].userid != account@);
            }
        }
    }
    None
}

/// Looks up the address to which the superuser's mail goes.
pub fn root_recipient(entries: &Vec<UserEntry>) -> (address: Option<String>)
    ensures
        address.deep_view() == recipient_in(entries.deep_view(), root_account()),
{
    recipient_of(entries, "root@pam")
}

/// Resolves the route of one product from what its files hold: `entries`
/// are its user accounts, if they could be had, and `sender` is the sender
/// address of its site configuration, if it has one.
pub fn resolve(entries: Option<&Vec<UserEntry>>, sender: Option<&str>) -> (route: ResolvedRoute)
    ensures
        route.deep_view() == route_of(entries.deep_view(), sender.deep_view()),
{
    let mut recipients: Vec<String> = Vec::new();
    if let Some(entries) = entries {
        if let Some(address) = root_recipient(entries) {
            recipients.push(address);
        }
    }
    let route = ResolvedRoute { sender: normalize(sender), recipients, suppress: false };
    assert(route.deep_view().recipients =~= route_of(
        entries.deep_view(),
        sender.deep_view(),
    ).recipients);
    route
}

/// What the files of one product brought: its user accounts, and the sender
/// address of its site configuration. A product that keeps no sender is
/// given with `Lookup::Missing` there.
#[derive(Debug, PartialEq, Eq)]
pub struct ProductSources {
    pub product: Product,
    pub accounts: Lookup<Vec<UserEntry>>,
    pub sender: Lookup<Option<String>>,
}

impl ProductSources {
    /// The accounts that could be had.
    pub open spec fn entries(self) -> Option<Seq<UserEntryView>> {
        self.accounts.value().deep_view()
    }

    /// The sender field that could be had.
    pub open spec fn sender_field(self) -> Option<Seq<char>> {
        match self.sender.value() {
            Some(field) => field.deep_view(),
            None => None,
        }
    }

    /// The failures to report, that of the accounts first.
    pub open spec fn failures(self) -> Seq<ForwardError> {
        let of_accounts = match self.accounts.failure(self.product) {
            Some(failure) => seq![failure],
            None => Seq::empty(),
        };
        let of_sender = match self.sender.failure(self.product) {
            Some(failure) => seq![failure],
            None => Seq::empty(),
        };
        of_accounts + of_sender
    }
}

/// Runs the resolver of one product: yields its route and the failures to
/// report. Whatever could not be read or parsed counts as absent, so that
/// the route is made of what is left, and the other products are not
/// touched by it.
pub fn resolve_product(sources: ProductSources) -> (outcome: (ResolvedRoute, Vec<ForwardError>))
    ensures
        outcome.0.deep_view() == route_of(sources.entries(), sources.sender_field()),
        outcome.1@ == sources.failures(),
        forall|i: int|
            0 <= i < outcome.1@.len() ==> {
                &&& !(#[trigger] outcome.1@[i]).fatal()
                &&& outcome.1@[i].scope() == Some(sources.product)
            },
{
    let mut reports: Vec<ForwardError> = Vec::new();
    let (entries, failure) = sources.accounts.settle(sources.product);
    if let Some(failure) = failure {
        reports.push(failure);
    }
    let (sender, failure) = sources.sender.settle(sources.product);
    if let Some(failure) = failure {
        reports.push(failure);
    }
    let field: Option<&str> = match &sender {
        Some(Some(text)) => Some(text.as_str()),
        _ => None,
    };
    let route = resolve(entries.as_ref(), field);
    assert(reports@ =~= sources.failures());
    (route, reports)
}

} // verus!
