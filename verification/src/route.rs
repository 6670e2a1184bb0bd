//! Routes and the plan made of them, for forwarding by direct invocation of
//! the mail transport agent.
//!
//! Each product's resolver yields a route: whom to send to and, perhaps, as
//! whom. The plan is the union of the routes that are not suppressed: every
//! address once, in the order in which it was first seen.

use vstd::prelude::*;
use crate::error::ForwardError;

verus! {

/// What one product's resolver found.
#[derive(Debug, PartialEq, Eq)]
pub struct ResolvedRoute {
    /// The sender address that the product configures, if it does.
    pub sender: Option<String>,
    /// The recipients that the product names.
    pub recipients: Vec<String>,
    /// Whether the product stands back behind another one. A suppressed
    /// route adds nothing to the plan.
    pub suppress: bool,
}

/// The mathematical value of a `ResolvedRoute`.
pub struct RouteView {
    pub sender: Option<Seq<char>>,
    pub recipients: Seq<Seq<char>>,
    pub suppress: bool,
}

impl DeepView for ResolvedRoute {
    type V = RouteView;

    open spec fn deep_view(&self) -> RouteView {
        RouteView {
            sender: self.sender.deep_view(),
            recipients: self.recipients.deep_view(),
            suppress: self.suppress,
        }
    }
}

/// The one plan of a run: as whom to send, and to whom.
#[derive(Debug, PartialEq, Eq)]
pub struct ForwardingPlan {
    pub sender: String,
    pub recipients: Vec<String>,
}

/// The mathematical value of a `ForwardingPlan`.
pub struct PlanView {
    pub sender: Seq<char>,
    pub recipients: Seq<Seq<char>>,
}

impl PlanView {
    /// A plan names at least one recipient, and none twice.
    pub open spec fn well_formed(self) -> bool {
        self.recipients.len() > 0 && self.recipients.no_duplicates()
    }
}

impl DeepView for ForwardingPlan {
    type V = PlanView;

    open spec fn deep_view(&self) -> PlanView {
        PlanView { sender: self.sender@, recipients: self.recipients.deep_view() }
    }
}

/// The sender to fall back on where none is configured.
pub open spec fn default_sender() -> Seq<char> {
    "root"@
}

/// The items without their repetitions: each one stays where it came first.
pub open spec fn distinct(items: Seq<Seq<char>>) -> Seq<Seq<char>>
    decreases items.len(),
{
    if items.len() == 0 {
        Seq::empty()
    } else {
        let before = distinct(items.drop_last());
        if before.contains(items.last()) {
            before
        } else {
            before.push(items.last())
        }
    }
}

/// What a route adds to the plan's recipients: nothing if it is suppressed.
pub open spec fn contribution(route: RouteView) -> Seq<Seq<char>> {
    if route.suppress {
        Seq::empty()
    } else {
        route.recipients
    }
}

/// All recipients of the routes that are not suppressed, route after route.
pub open spec fn addressed(routes: Seq<RouteView>) -> Seq<Seq<char>>
    decreases routes.len(),
{
    if routes.len() == 0 {
        Seq::empty()
    } else {
        addressed(routes.drop_last()) + contribution(routes.last())
    }
}

/// The sender of the first route that is not suppressed and configures one.
pub open spec fn configured_sender(routes: Seq<RouteView>) -> Option<Seq<char>>
    decreases routes.len(),
{
    if routes.len() == 0 {
        None
    } else {
        match configured_sender(routes.drop_last()) {
            Some(sender) => Some(sender),
            None => if routes.last().suppress {
                None
            } else {
                routes.last().sender
            },
        }
    }
}

/// The plan that the routes make: none if nobody is addressed.
pub open spec fn plan_for(routes: Seq<RouteView>) -> Result<PlanView, ForwardError> {
    if distinct(addressed(routes)).len() == 0 {
        Err(ForwardError::EmptyRecipient)
    } else {
        Ok(
            PlanView {
                sender: match configured_sender(routes) {
                    Some(sender) => sender,
                    None => default_sender(),
                },
                recipients: distinct(addressed(routes)),
            },
        )
    }
}

/// Tells whether the list holds the address.
fn holds(list: &Vec<String>, address: &String) -> (found: bool)
    ensures
        found == list.deep_view().contains(address@),
{
    let mut i: usize = 0;
    while i < list.len()
        invariant
            i <= list.len(),
            forall|k: int| 0 <= k < i ==> list.deep_view()[k] != address@,
        decreases list.len() - i,
    {
        if list[i] == *address {
            assert(list.deep_view()[i as int] == address@);
            return true;
        }
        i = i + 1;
    }
    false
}

/// Adds to `list` the recipients of `route` that it does not hold yet.
/// `seen` is what the list has been made of so far.
fn take_in(list: &mut Vec<String>, route: &ResolvedRoute, Ghost(seen): Ghost<Seq<Seq<char>>>)
    requires
        old(list).deep_view() == distinct(seen),
    ensures
        final(list).deep_view() == distinct(seen + route.recipients.deep_view()),
{
    let ghost added = route.recipients.deep_view();
    let mut j: usize = 0;
    assert(seen + added.take(0) =~= seen);
    while j < route.recipients.len()
        invariant
            j <= route.recipients.len(),
            added == route.recipients.deep_view(),
            list.deep_view() == distinct(seen + added.take(j as int)),
        decreases route.recipients.len() - j,
    {
        let ghost before = list.deep_view();
        let found = holds(list, &route.recipients[j]);
        if !found {
            list.push(route.recipients[j].clone());
            assert(list.deep_view() =~= before.push(added[j as int]));
        }
        proof {
            let longer = seen + added.take(j + 1);
            assert(longer.drop_last() =~= seen + added.take(j as int));
            assert(longer.last() == added[j as int]);
        }
        j = j + 1;
    }
    assert(added.take(j as int) =~= added);
}

/// Makes the one plan out of the routes of all products.
///
/// The recipients are those of the routes that are not suppressed, each
/// once, in the order in which they were first seen. The sender is that of
/// the first such route that configures one, else the default. Where no
/// recipient is left, there is no plan: the outcome is `EmptyRecipient`,
/// and nothing may be delivered.
pub fn combine(routes: &Vec<ResolvedRoute>) -> (outcome: Result<ForwardingPlan, ForwardError>)
    ensures
        match outcome {
            Ok(plan) => plan_for(routes.deep_view()) == Ok::<PlanView, ForwardError>(
                plan.deep_view(),
            ),
            Err(failure) => plan_for(routes.deep_view()) == Err::<PlanView, ForwardError>(failure),
        },
{
    let ghost all = routes.deep_view();
    let mut recipients: Vec<String> = Vec::new();
    let mut sender: Option<String> = None;
    let mut i: usize = 0;
    assert(recipients.deep_view() =~= distinct(addressed(all.take(0))));
    while i < routes.len()
        invariant
            i <= routes.len(),
            all == routes.deep_view(),
            recipients.deep_view() == distinct(addressed(all.take(i as int))),
            sender.deep_view() == configured_sender(all.take(i as int)),
        decreases routes.len() - i,
    {
        let route = &routes[i];
        proof {
            assert(all.take(i + 1).drop_last() =~= all.take(i as int));
            assert(all.take(i + 1).last() == route.deep_view());
        }
        if !route.suppress {
            take_in(&mut recipients, route, Ghost(addressed(all.take(i as int))));
            if sender.is_none() {
                sender = match &route.sender {
                    Some(address) => Some(address.clone()),
                    None => None,
                };
            }
        } else {
            assert(addressed(all.take(i + 1)) =~= addressed(all.take(i as int)));
        }
        i = i + 1;
    }
    assert(all.take(i as int) =~= all);
    if recipients.len() == 0 {
        Err(ForwardError::EmptyRecipient)
    } else {
        let sender = match sender {
            Some(address) => address,
            None => "root".to_owned(),
        };
        Ok(ForwardingPlan { sender, recipients })
    }
}

/// Whether position `at` is where its item occurs first.
pub open spec fn is_first(items: Seq<Seq<char>>, at: int) -> bool {
    forall|k: int| 0 <= k < at ==> #[trigger] items[k] != items[at]
}

/// The union holds no address twice.
pub proof fn lemma_distinct_has_no_duplicates(items: Seq<Seq<char>>)
    ensures
        distinct(items).no_duplicates(),
    decreases items.len(),
{
    if items.len() > 0 {
        lemma_distinct_has_no_duplicates(items.drop_last());
    }
}

/// The union holds exactly the addresses that were given.
pub proof fn lemma_distinct_keeps_members(items: Seq<Seq<char>>, address: Seq<char>)
    ensures
        distinct(items).contains(address) <==> items.contains(address),
    decreases items.len(),
{
    if items.len() > 0 {
        let front = items.drop_last();
        lemma_distinct_keeps_members(front, address);
        lemma_distinct_keeps_members(front, items.last());
        if items.contains(address) {
            let at = choose|at: int| 0 <= at < items.len() && items[at] == address;
            if at < items.len() - 1 {
                assert(front[at] == address);
            }
        }
        if front.contains(address) {
            let at = choose|at: int| 0 <= at < front.len() && front[at] == address;
            assert(items[at] == address);
        }
        let before = distinct(front);
        if before.contains(address) {
            let at = choose|at: int| 0 <= at < before.len() && before[at] == address;
            assert(distinct(items)[at] == address);
        }
        if !before.contains(items.last()) {
            assert(distinct(items).last() == items.last());
            assert(items[items.len() - 1] == items.last());
        }
    }
}

/// The union keeps the order in which the addresses were first seen: of two
/// addresses of the union, the earlier one occurs first at an earlier place
/// among the addresses given. The places are returned.
pub proof fn lemma_distinct_keeps_order(items: Seq<Seq<char>>, i: int, j: int) -> (places: (
    int,
    int,
))
    requires
        0 <= i < j < distinct(items).len(),
    ensures
        0 <= places.0 < places.1 < items.len(),
        items[places.0] == distinct(items)[i],
        items[places.1] == distinct(items)[j],
        is_first(items, places.0),
        is_first(items, places.1),
    decreases items.len(),
{
    let front = items.drop_last();
    let before = distinct(front);
    if j < before.len() {
        let places = lemma_distinct_keeps_order(front, i, j);
        assert(items[places.0] == front[places.0]);
        assert(items[places.1] == front[places.1]);
        assert(is_first(items, places.0)) by {
            assert forall|k: int| 0 <= k < places.0 implies #[trigger] items[k]
                != items[places.0] by {
                assert(front[k] != front[places.0]);
            }
        }
        assert(is_first(items, places.1)) by {
            assert forall|k: int| 0 <= k < places.1 implies #[trigger] items[k]
                != items[places.1] by {
                assert(front[k] != front[places.1]);
            }
        }
        places
    } else {
        let end = items.len() - 1;
        assert(is_first(items, end)) by {
            assert forall|k: int| 0 <= k < end implies #[trigger] items[k] != items[end] by {
                lemma_distinct_keeps_members(front, items.last());
                if items[k] == items[end] {
                    assert(front[k] == items.last());
                }
            }
        }
        let first = lemma_first_place(front, i);
        assert(items[first] == front[first]);
        assert(is_first(items, first)) by {
            assert forall|k: int| 0 <= k < first implies #[trigger] items[k] != items[first] by {
                assert(front[k] != front[first]);
            }
        }
        (first, end)
    }
}

/// Every address of the union stands where it occurs first among the
/// addresses given. The place is returned.
pub proof fn lemma_first_place(items: Seq<Seq<char>>, i: int) -> (place: int)
    requires
        0 <= i < distinct(items).len(),
    ensures
        0 <= place < items.len(),
        items[place] == distinct(items)[i],
        is_first(items, place),
    decreases items.len(),
{
    let front = items.drop_last();
    let before = distinct(front);
    if i < before.len() {
        let place = lemma_first_place(front, i);
        assert(items[place] == front[place]);
        assert forall|k: int| 0 <= k < place implies #[trigger] items[k] != items[place] by {
            assert(front[k] != front[place]);
        }
        place
    } else {
        let end = items.len() - 1;
        assert forall|k: int| 0 <= k < end implies #[trigger] items[k] != items[end] by {
            lemma_distinct_keeps_members(front, items.last());
            if items[k] == items[end] {
                assert(front[k] == items.last());
            }
        }
        end
    }
}

/// Addresses that are distinct already are kept as they are.
pub proof fn lemma_distinct_keeps_distinct(items: Seq<Seq<char>>)
    requires
        items.no_duplicates(),
    ensures
        distinct(items) == items,
    decreases items.len(),
{
    if items.len() > 0 {
        let front = items.drop_last();
        lemma_distinct_keeps_distinct(front);
        if front.contains(items.last()) {
            let at = choose|at: int| 0 <= at < front.len() && front[at] == items.last();
            assert(items[at] == items[items.len() - 1]);
        }
        assert(front.push(items.last()) =~= items);
    }
}

/// An address is addressed exactly if a route that is not suppressed names
/// it.
pub proof fn lemma_addressed_members(routes: Seq<RouteView>, address: Seq<char>)
    ensures
        addressed(routes).contains(address) <==> exists|r: int|
            0 <= r < routes.len() && !routes[r].suppress && (
            #[trigger] routes[r]).recipients.contains(address),
    decreases routes.len(),
{
    if routes.len() > 0 {
        let front = routes.drop_last();
        let last = routes.last();
        lemma_addressed_members(front, address);
        let all = addressed(routes);
        if all.contains(address) {
            let at = choose|at: int| 0 <= at < all.len() && all[at] == address;
            if at < addressed(front).len() {
                assert(addressed(front)[at] == address);
                let r = choose|r: int|
                    0 <= r < front.len() && !front[r].suppress && (
                    #[trigger] front[r]).recipients.contains(address);
                assert(routes[r] == front[r]);
            } else {
                assert(contribution(last)[at - addressed(front).len()] == address);
                assert(routes[routes.len() - 1] == last);
            }
        }
        if exists|r: int|
            0 <= r < routes.len() && !routes[r].suppress && (
            #[trigger] routes[r]).recipients.contains(address) {
            let r = choose|r: int|
                0 <= r < routes.len() && !routes[r].suppress && (
                #[trigger] routes[r]).recipients.contains(address);
            if r < front.len() {
                assert(front[r] == routes[r]);
                let at = choose|at: int|
                    0 <= at < addressed(front).len() && addressed(front)[at] == address;
                assert(all[at] == address);
            } else {
                let at = choose|at: int|
                    0 <= at < last.recipients.len() && last.recipients[at] == address;
                assert(all[addressed(front).len() + at] == address);
            }
        }
    }
}

/// There is a plan exactly if some route that is not suppressed names a
/// recipient. The plan then is well formed, and its recipients are exactly
/// the addresses that such routes name.
pub proof fn lemma_plan_is_sound(routes: Seq<RouteView>)
    ensures
        match plan_for(routes) {
            Ok(plan) => {
                &&& plan.well_formed()
                &&& forall|address: Seq<char>| #[trigger]
                    plan.recipients.contains(address) <==> addressed(routes).contains(address)
            },
            Err(failure) => {
                &&& failure == ForwardError::EmptyRecipient
                &&& forall|r: int|
                    0 <= r < routes.len() && !(#[trigger] routes[r]).suppress
                        ==> routes[r].recipients.len() == 0
            },
        },
{
    let all = addressed(routes);
    lemma_distinct_has_no_duplicates(all);
    assert forall|address: Seq<char>| #[trigger]
        distinct(all).contains(address) <==> all.contains(address) by {
        lemma_distinct_keeps_members(all, address);
    }
    if distinct(all).len() == 0 {
        assert forall|r: int| 0 <= r < routes.len() && !(#[trigger] routes[r]).suppress implies
            routes[r].recipients.len() == 0 by {
            if routes[r].recipients.len() > 0 {
                let address = routes[r].recipients[0];
                assert(routes[r].recipients.contains(address));
                lemma_addressed_members(routes, address);
                lemma_distinct_keeps_members(all, address);
                let found = distinct(all);
                let at = choose|at: int| 0 <= at < found.len() && found[at] == address;
            }
        }
    }
}

} // verus!
