//! The provisioned node's configuration tables: model subscriptions, model
//! publications and application key bindings, checked against the node's
//! composition.

use vstd::prelude::*;
use crate::error::DriverError;
use crate::address::Address;
use crate::common::ModelIdentifier;
use crate::models::configuration::AppKeyIndex;
use crate::models::configuration::model_publication::{PublicationDetails, PublishAddress};
use crate::models::configuration::model_subscription::{SubscriptionAddress, subscription_address_from};

verus! {

/// The elements of the node and the models of each.
pub struct Composition {
    pub elements: Vec<Vec<ModelIdentifier>>,
}

impl Composition {
    /// Whether element `element_index` has the model.
    pub open spec fn spec_has_model(&self, element_index: u8, model_identifier: ModelIdentifier) -> bool {
        self.elements@[element_index as int]@.contains(model_identifier)
    }

    /// Whether element `element_index`, which must exist, has the model.
    pub fn has_model(&self, element_index: u8, model_identifier: ModelIdentifier) -> (r: bool)
        requires
            (element_index as int) < self.elements@.len(),
        ensures
            r == self.spec_has_model(element_index, model_identifier),
    {
        let models = &self.elements[element_index as usize];
        let mut i: usize = 0;
        while i < models.len()
            invariant
                i <= models@.len(),
                *models == self.elements@[element_index as int],
                forall|j: int| 0 <= j < i ==> models@[j] != model_identifier,
            decreases models@.len() - i,
        {
            if models[i] == model_identifier {
                assert(models@[i as int] == model_identifier);
                assert(models@.contains(model_identifier));
                return true;
            }
            i = i + 1;
        }
        false
    }
}

/// The first empty slot of a table.
pub open spec fn first_none<T>(q: Seq<Option<T>>) -> Option<int> {
    if exists|i: int| 0 <= i < q.len() && (#[trigger] q[i]) is None {
        Some(choose|i: int| 0 <= i < q.len() && (#[trigger] q[i]) is None && forall|j: int| 0 <= j < i ==> q[j] is Some)
    } else {
        None
    }
}

/// The first empty slot, in a loop over the slots.
pub(crate) fn find_none<T>(q: &Vec<Option<T>>) -> (r: Option<usize>)
    ensures
        r == (match first_none(q@) {
            Some(i) => Some(i as usize),
            None => None::<usize>,
        }),
{
    let mut i: usize = 0;
    while i < q.len()
        invariant
            i <= q@.len(),
            forall|j: int| 0 <= j < i ==> q@[j] is Some,
        decreases q@.len() - i,
    {
        if q[i].is_none() {
            proof {
                let c = choose|k: int| 0 <= k < q@.len() && (#[trigger] q@[k]) is None && forall|j: int| 0 <= j < k ==> q@[j] is Some;
                assert(q@[i as int] is None);
                assert(c == i) by {
                    if c < i {
                        assert(q@[c] is Some);
                    } else if c > i {
                        assert(q@[i as int] is Some);
                    }
                };
            }
            return Some(i);
        }
        i = i + 1;
    }
    None
}

/// A subscription of a model of an element to an address.
#[derive(Copy, Clone, Debug)]
pub struct Subscription {
    pub element_index: u8,
    pub model_identifier: ModelIdentifier,
    pub address: SubscriptionAddress,
}

/// Whether a slot holds the subscription of the model to the address.
pub open spec fn holds_subscription(s: Option<Subscription>, element_index: u8, model_identifier: ModelIdentifier, address: SubscriptionAddress) -> bool {
    s matches Some(x) && x.element_index == element_index && x.model_identifier == model_identifier && x.address == address
}

/// Whether a slot holds a subscription of the model.
pub open spec fn holds_model(s: Option<Subscription>, element_index: u8, model_identifier: ModelIdentifier) -> bool {
    s matches Some(x) && x.element_index == element_index && x.model_identifier == model_identifier
}

/// The addresses the model is subscribed to, in slot order.
pub open spec fn addresses_of(q: Seq<Option<Subscription>>, element_index: u8, model_identifier: ModelIdentifier) -> Seq<SubscriptionAddress>
    decreases q.len(),
{
    if q.len() == 0 {
        Seq::empty()
    } else {
        addresses_of(q.drop_last(), element_index, model_identifier) + if holds_model(q.last(), element_index, model_identifier) {
            seq![q.last()->0.address]
        } else {
            Seq::empty()
        }
    }
}

/// The subscriptions to an address, in slot order.
pub open spec fn subscriptions_to(q: Seq<Option<Subscription>>, address: SubscriptionAddress) -> Seq<Subscription>
    decreases q.len(),
{
    if q.len() == 0 {
        Seq::empty()
    } else {
        subscriptions_to(q.drop_last(), address) + if q.last() matches Some(x) && x.address == address {
            seq![q.last()->0]
        } else {
            Seq::empty()
        }
    }
}

/// Up to eight subscriptions.
pub struct Subscriptions {
    entries: Vec<Option<Subscription>>,
}

impl Subscriptions {
    pub closed spec fn slots(&self) -> Seq<Option<Subscription>> {
        self.entries@
    }

    pub open spec fn wf(&self) -> bool {
        self.slots().len() == 8
    }

    /// Eight empty slots.
    pub fn new() -> (r: Subscriptions)
        ensures
            r.wf(),
            forall|i: int| 0 <= i < 8 ==> (#[trigger] r.slots()[i]) is None,
    {
        let mut entries: Vec<Option<Subscription>> = Vec::new();
        let mut i: usize = 0;
        while i < 8
            invariant
                i <= 8,
                entries@.len() == i,
                forall|j: int| 0 <= j < i ==> (#[trigger] entries@[j]) is None,
            decreases 8 - i,
        {
            entries.push(None);
            i = i + 1;
        }
        Subscriptions { entries }
    }

    /// Whether the subscription is stored.
    fn contains(&self, element_index: u8, model_identifier: ModelIdentifier, address: SubscriptionAddress) -> (r: bool)
        ensures
            r == exists|i: int| 0 <= i < self.slots().len() && holds_subscription(#[trigger] self.slots()[i], element_index, model_identifier, address),
    {
        let mut i: usize = 0;
        while i < self.entries.len()
            invariant
                i <= self.slots().len(),
                forall|j: int| 0 <= j < i ==> !holds_subscription(#[trigger] self.slots()[j], element_index, model_identifier, address),
            decreases self.slots().len() - i,
        {
            let hit = match &self.entries[i] {
                Some(slot) => slot.element_index == element_index && slot.model_identifier == model_identifier
                    && slot.address == address,
                None => false,
            };
            if hit {
                return true;
            }
            i = i + 1;
        }
        false
    }

    /// Subscribes a model of an element to an address. An existing
    /// subscription is kept as it is; a model the element lacks is refused; a
    /// full table has no room.
    pub fn add(
        &mut self,
        composition: &Composition,
        element_index: u8,
        model_identifier: ModelIdentifier,
        address: SubscriptionAddress,
    ) -> (r: Result<(), DriverError>)
        requires
            old(self).wf(),
            (exists|i: int| 0 <= i < old(self).slots().len() && holds_subscription(#[trigger] old(self).slots()[i], element_index, model_identifier, address))
                || (element_index as int) < composition.elements@.len(),
        ensures
            final(self).wf(),
            if exists|i: int| 0 <= i < old(self).slots().len() && holds_subscription(#[trigger] old(self).slots()[i], element_index, model_identifier, address) {
                r is Ok && final(self).slots() == old(self).slots()
            } else if !composition.spec_has_model(element_index, model_identifier) {
                r == Err::<(), DriverError>(DriverError::InvalidModel) && final(self).slots() == old(self).slots()
            } else {
                match first_none(old(self).slots()) {
                    Some(i) => r is Ok && final(self).slots() == old(self).slots().update(
                        i,
                        Some(Subscription { element_index, model_identifier, address }),
                    ),
                    None => r == Err::<(), DriverError>(DriverError::InsufficientSpace) && final(self).slots() == old(self).slots(),
                }
            },
    {
        if self.contains(element_index, model_identifier, address) {
            return Ok(());
        }
        if composition.has_model(element_index, model_identifier) {
            match find_none(&self.entries) {
                Some(i) => {
                    self.entries.set(i, Some(Subscription { element_index, model_identifier, address }));
                    Ok(())
                },
                None => Err(DriverError::InsufficientSpace),
            }
        } else {
            Err(DriverError::InvalidModel)
        }
    }

    /// Removes the subscription of the model to the address.
    pub fn delete(&mut self, element_index: u8, model_identifier: ModelIdentifier, address: SubscriptionAddress) -> (r: Result<(), DriverError>)
        requires
            old(self).wf(),
        ensures
            r is Ok,
            final(self).wf(),
            final(self).slots() == old(self).slots().map_values(
                |s: Option<Subscription>| if holds_subscription(s, element_index, model_identifier, address) { None } else { s },
            ),
    {
        let ghost q = self.slots();
        let mut i: usize = 0;
        while i < self.entries.len()
            invariant
                q == old(self).slots(),
                q.len() == 8,
                self.slots().len() == 8,
                i <= 8,
                forall|j: int| 0 <= j < i ==> #[trigger] self.slots()[j] == (if holds_subscription(q[j], element_index, model_identifier, address) { None } else { q[j] }),
                forall|j: int| i <= j < 8 ==> #[trigger] self.slots()[j] == q[j],
            decreases 8 - i,
        {
            let hit = match &self.entries[i] {
                Some(slot) => slot.element_index == element_index && slot.model_identifier == model_identifier
                    && slot.address == address,
                None => false,
            };
            if hit {
                self.entries.set(i, None);
            }
            i = i + 1;
        }
        assert(self.slots() =~= q.map_values(
            |s: Option<Subscription>| if holds_subscription(s, element_index, model_identifier, address) { None } else { s },
        ));
        Ok(())
    }

    /// Removes every subscription of the model.
    pub fn delete_all(&mut self, element_index: u8, model_identifier: ModelIdentifier) -> (r: Result<(), DriverError>)
        requires
            old(self).wf(),
        ensures
            r is Ok,
            final(self).wf(),
            final(self).slots() == old(self).slots().map_values(
                |s: Option<Subscription>| if holds_model(s, element_index, model_identifier) { None } else { s },
            ),
    {
        let ghost q = self.slots();
        let mut i: usize = 0;
        while i < self.entries.len()
            invariant
                q == old(self).slots(),
                q.len() == 8,
                self.slots().len() == 8,
                i <= 8,
                forall|j: int| 0 <= j < i ==> #[trigger] self.slots()[j] == (if holds_model(q[j], element_index, model_identifier) { None } else { q[j] }),
                forall|j: int| i <= j < 8 ==> #[trigger] self.slots()[j] == q[j],
            decreases 8 - i,
        {
            let hit = match &self.entries[i] {
                Some(slot) => slot.element_index == element_index && slot.model_identifier == model_identifier,
                None => false,
            };
            if hit {
                self.entries.set(i, None);
            }
            i = i + 1;
        }
        assert(self.slots() =~= q.map_values(
            |s: Option<Subscription>| if holds_model(s, element_index, model_identifier) { None } else { s },
        ));
        Ok(())
    }

    /// The addresses the model is subscribed to, in slot order.
    pub fn get(&self, element_index: u8, model_identifier: ModelIdentifier) -> (r: Vec<SubscriptionAddress>)
        ensures
            r@ == addresses_of(self.slots(), element_index, model_identifier),
    {
        let mut r: Vec<SubscriptionAddress> = Vec::new();
        let mut i: usize = 0;
        while i < self.entries.len()
            invariant
                i <= self.slots().len(),
                r@ == addresses_of(self.slots().take(i as int), element_index, model_identifier),
            decreases self.slots().len() - i,
        {
            proof {
                assert(self.slots().take(i + 1).drop_last() =~= self.slots().take(i as int));
                assert(self.slots().take(i + 1).last() == self.slots()[i as int]);
            }
            match &self.entries[i] {
                Some(slot) => {
                    if slot.element_index == element_index && slot.model_identifier == model_identifier {
                        r.push(slot.address);
                    }
                },
                None => {},
            }
            proof {
                assert(r@ =~= addresses_of(self.slots().take(i + 1), element_index, model_identifier));
            }
            i = i + 1;
        }
        assert(self.slots().take(self.slots().len() as int) =~= self.slots());
        r
    }

    /// The subscriptions to an address, in slot order.
    fn subscriptions_to_address(&self, address: SubscriptionAddress) -> (r: Vec<Subscription>)
        ensures
            r@ == subscriptions_to(self.slots(), address),
    {
        let mut r: Vec<Subscription> = Vec::new();
        let mut i: usize = 0;
        while i < self.entries.len()
            invariant
                i <= self.slots().len(),
                r@ == subscriptions_to(self.slots().take(i as int), address),
            decreases self.slots().len() - i,
        {
            proof {
                assert(self.slots().take(i + 1).drop_last() =~= self.slots().take(i as int));
                assert(self.slots().take(i + 1).last() == self.slots()[i as int]);
            }
            match &self.entries[i] {
                Some(slot) => {
                    if slot.address == address {
                        r.push(*slot);
                    }
                },
                None => {},
            }
            proof {
                assert(r@ =~= subscriptions_to(self.slots().take(i + 1), address));
            }
            i = i + 1;
        }
        assert(self.slots().take(self.slots().len() as int) =~= self.slots());
        r
    }

    /// Whether some model subscribes to `dst`; only unicast and group
    /// addresses can be subscribed to.
    pub fn matches(&self, dst: Address) -> (r: bool)
        ensures
            r == (match subscription_address_from(dst) {
                Ok(a) => subscriptions_to(self.slots(), a).len() > 0,
                Err(_) => false,
            }),
    {
        match SubscriptionAddress::try_from_address(dst) {
            Ok(a) => self.subscriptions_to_address(a).len() > 0,
            Err(_) => false,
        }
    }

    /// The subscriptions to `dst`; only unicast and group addresses can be
    /// subscribed to.
    pub fn subscriptions_for(&self, dst: Address) -> (r: Result<Vec<Subscription>, DriverError>)
        ensures
            match subscription_address_from(dst) {
                Ok(a) => r matches Ok(v) && v@ == subscriptions_to(self.slots(), a),
                Err(_) => r == Err::<Vec<Subscription>, DriverError>(DriverError::InvalidAddress),
            },
    {
        match SubscriptionAddress::try_from_address(dst) {
            Ok(a) => Ok(self.subscriptions_to_address(a)),
            Err(_) => Err(DriverError::InvalidAddress),
        }
    }
}

/// The addresses of the subscriptions held are those subscribed: once
/// `add` stored a subscription in a slot, `get` lists its address.
pub proof fn lemma_added_subscription_listed(
    q: Seq<Option<Subscription>>,
    i: int,
    element_index: u8,
    model_identifier: ModelIdentifier,
    address: SubscriptionAddress,
)
    requires
        0 <= i < q.len(),
    ensures
        addresses_of(
            q.update(i, Some(Subscription { element_index, model_identifier, address })),
            element_index,
            model_identifier,
        ).contains(address),
    decreases q.len(),
{
    let q2 = q.update(i, Some(Subscription { element_index, model_identifier, address }));
    if i == q.len() - 1 {
        let rest = addresses_of(q2.drop_last(), element_index, model_identifier);
        assert(addresses_of(q2, element_index, model_identifier) == rest + seq![address]);
        assert((rest + seq![address])[rest.len() as int] == address);
    } else {
        lemma_added_subscription_listed(q.drop_last(), i, element_index, model_identifier, address);
        assert(q2.drop_last() =~= q.drop_last().update(i, Some(Subscription { element_index, model_identifier, address })));
        let a = addresses_of(q2.drop_last(), element_index, model_identifier);
        let k = choose|k: int| 0 <= k < a.len() && a[k] == address;
        let full = addresses_of(q2, element_index, model_identifier);
        assert(full[k] == address);
    }
}

/// The publication of a model of an element.
#[derive(Copy, Clone, Debug)]
pub struct Publication {
    pub element_index: u8,
    pub details: PublicationDetails,
}

/// Whether a slot holds the publication of the model.
pub open spec fn holds_publication(s: Option<Publication>, element_index: u8, model_identifier: ModelIdentifier) -> bool {
    s matches Some(x) && x.element_index == element_index && x.details.model_identifier == model_identifier
}

/// The first slot holding the publication of the model.
pub open spec fn first_publication(q: Seq<Option<Publication>>, element_index: u8, model_identifier: ModelIdentifier) -> Option<int> {
    if exists|i: int| 0 <= i < q.len() && holds_publication(#[trigger] q[i], element_index, model_identifier) {
        Some(choose|i: int| 0 <= i < q.len() && holds_publication(#[trigger] q[i], element_index, model_identifier)
            && forall|j: int| 0 <= j < i ==> !holds_publication(q[j], element_index, model_identifier))
    } else {
        None
    }
}

/// What setting the publication of a model in `details` does to the slots
/// `q`, giving `q2`: an unassigned publish address removes it; an existing
/// publication is replaced; otherwise a model the element lacks is refused,
/// and the publication takes the first free slot, or a full table has no
/// room.
pub open spec fn publication_set(
    q: Seq<Option<Publication>>,
    composition: Composition,
    element_index: u8,
    details: PublicationDetails,
    q2: Seq<Option<Publication>>,
    r: Result<(), DriverError>,
) -> bool {
    if details.publish_address is Unassigned {
        r is Ok && q2 == q.map_values(
            |s: Option<Publication>| if holds_publication(s, element_index, details.model_identifier) { None } else { s },
        )
    } else if first_publication(q, element_index, details.model_identifier) is Some {
        r is Ok && q2 == q.update(
            first_publication(q, element_index, details.model_identifier)->0,
            Some(Publication { element_index, details }),
        )
    } else if !composition.spec_has_model(element_index, details.model_identifier) {
        r == Err::<(), DriverError>(DriverError::InvalidModel) && q2 == q
    } else {
        match first_none(q) {
            Some(i) => r is Ok && q2 == q.update(i, Some(Publication { element_index, details })),
            None => r == Err::<(), DriverError>(DriverError::InsufficientSpace) && q2 == q,
        }
    }
}

/// The publication `get` gives for the model in the slots `q`.
pub open spec fn publication_of(q: Seq<Option<Publication>>, element_index: u8, model_identifier: ModelIdentifier) -> Option<Publication> {
    match first_publication(q, element_index, model_identifier) {
        Some(i) => q[i],
        None => None,
    }
}

/// The first slot holding a publication is the one that holds it with none
/// before it.
proof fn lemma_first_publication_is(q: Seq<Option<Publication>>, element_index: u8, model_identifier: ModelIdentifier, i: int)
    requires
        0 <= i < q.len(),
        holds_publication(q[i], element_index, model_identifier),
        forall|j: int| 0 <= j < i ==> !holds_publication(#[trigger] q[j], element_index, model_identifier),
    ensures
        first_publication(q, element_index, model_identifier) == Some(i),
{
    let c = choose|k: int| 0 <= k < q.len() && holds_publication(#[trigger] q[k], element_index, model_identifier)
        && forall|j: int| 0 <= j < k ==> !holds_publication(q[j], element_index, model_identifier);
    assert(holds_publication(q[i], element_index, model_identifier));
    if c < i {
        assert(!holds_publication(q[c], element_index, model_identifier));
    } else if c > i {
        assert(!holds_publication(q[i], element_index, model_identifier));
    }
}

/// Where some slot holds the publication of the model, a first one does.
proof fn lemma_first_publication_exists(q: Seq<Option<Publication>>, element_index: u8, model_identifier: ModelIdentifier, w: int)
    requires
        0 <= w < q.len(),
        holds_publication(q[w], element_index, model_identifier),
    ensures
        exists|i: int| 0 <= i < q.len() && holds_publication(#[trigger] q[i], element_index, model_identifier)
            && forall|j: int| 0 <= j < i ==> !holds_publication(q[j], element_index, model_identifier),
    decreases w,
{
    if exists|j: int| 0 <= j < w && holds_publication(#[trigger] q[j], element_index, model_identifier) {
        let j = choose|j: int| 0 <= j < w && holds_publication(#[trigger] q[j], element_index, model_identifier);
        lemma_first_publication_exists(q, element_index, model_identifier, j);
    } else {
        assert(forall|j: int| 0 <= j < w ==> !holds_publication(#[trigger] q[j], element_index, model_identifier));
    }
}

/// Where some slot is free, a first one is.
proof fn lemma_first_none_exists<T>(q: Seq<Option<T>>, w: int)
    requires
        0 <= w < q.len(),
        q[w] is None,
    ensures
        exists|i: int| 0 <= i < q.len() && (#[trigger] q[i]) is None && forall|j: int| 0 <= j < i ==> q[j] is Some,
    decreases w,
{
    if exists|j: int| 0 <= j < w && (#[trigger] q[j]) is None {
        let j = choose|j: int| 0 <= j < w && (#[trigger] q[j]) is None;
        lemma_first_none_exists(q, j);
    } else {
        assert(forall|j: int| 0 <= j < w ==> (#[trigger] q[j]) is Some);
    }
}

/// A publication written over the first slot holding the model is read
/// back.
proof fn lemma_replaced_publication_read(q: Seq<Option<Publication>>, element_index: u8, details: PublicationDetails, f: int)
    requires
        first_publication(q, element_index, details.model_identifier) == Some(f),
    ensures
        publication_of(q.update(f, Some(Publication { element_index, details })), element_index, details.model_identifier)
            == Some(Publication { element_index, details }),
{
    let m = details.model_identifier;
    let q2 = q.update(f, Some(Publication { element_index, details }));
    let w = choose|i: int| 0 <= i < q.len() && holds_publication(#[trigger] q[i], element_index, m);
    lemma_first_publication_exists(q, element_index, m, w);
    assert(0 <= f < q.len() && forall|j: int| 0 <= j < f ==> !holds_publication(#[trigger] q[j], element_index, m));
    assert forall|j: int| 0 <= j < f implies !holds_publication(#[trigger] q2[j], element_index, m) by {
        assert(q2[j] == q[j]);
    }
    assert(holds_publication(q2[f], element_index, m));
    lemma_first_publication_is(q2, element_index, m, f);
}

/// A publication of a model no slot holds, written into a free slot, is read
/// back.
proof fn lemma_added_publication_read(q: Seq<Option<Publication>>, element_index: u8, details: PublicationDetails, i: int)
    requires
        first_publication(q, element_index, details.model_identifier) is None,
        0 <= i < q.len(),
    ensures
        publication_of(q.update(i, Some(Publication { element_index, details })), element_index, details.model_identifier)
            == Some(Publication { element_index, details }),
{
    let m = details.model_identifier;
    let q2 = q.update(i, Some(Publication { element_index, details }));
    assert forall|j: int| 0 <= j < i implies !holds_publication(#[trigger] q2[j], element_index, m) by {
        assert(q2[j] == q[j]);
        if holds_publication(q[j], element_index, m) {
            assert(exists|k: int| 0 <= k < q.len() && holds_publication(#[trigger] q[k], element_index, m));
        }
    }
    assert(holds_publication(q2[i], element_index, m));
    lemma_first_publication_is(q2, element_index, m, i);
}

/// After a publication is set, reading it gives it back; after it is set with
/// an unassigned publish address, there is none.
pub proof fn lemma_publication_set_then_get(
    q: Seq<Option<Publication>>,
    composition: Composition,
    element_index: u8,
    details: PublicationDetails,
    q2: Seq<Option<Publication>>,
)
    requires
        publication_set(q, composition, element_index, details, q2, Ok(())),
    ensures
        details.publish_address is Unassigned ==> publication_of(q2, element_index, details.model_identifier) is None,
        !(details.publish_address is Unassigned) ==> publication_of(q2, element_index, details.model_identifier) == Some(
            Publication { element_index, details },
        ),
{
    let m = details.model_identifier;
    if details.publish_address is Unassigned {
        assert forall|i: int| 0 <= i < q2.len() implies !holds_publication(#[trigger] q2[i], element_index, m) by {
            assert(q2[i] == (if holds_publication(q[i], element_index, m) { None } else { q[i] }));
        }
    } else {
        match first_publication(q, element_index, m) {
            Some(f) => {
                lemma_replaced_publication_read(q, element_index, details, f);
            },
            None => {
                let i = first_none(q)->0;
                let w = choose|k: int| 0 <= k < q.len() && (#[trigger] q[k]) is None;
                lemma_first_none_exists(q, w);
                assert(0 <= i < q.len());
                lemma_added_publication_read(q, element_index, details, i);
            },
        }
    }
}

/// Slots that agree on which ones hold the publication of a model, and on
/// the content of those, give the same publication for it.
proof fn lemma_same_publication_of(
    q: Seq<Option<Publication>>,
    q2: Seq<Option<Publication>>,
    element_index: u8,
    model_identifier: ModelIdentifier,
)
    requires
        q2.len() == q.len(),
        forall|k: int| 0 <= k < q.len() ==> (holds_publication(#[trigger] q2[k], element_index, model_identifier)
            == holds_publication(q[k], element_index, model_identifier)),
        forall|k: int| 0 <= k < q.len() && holds_publication(#[trigger] q[k], element_index, model_identifier) ==> q2[k] == q[k],
    ensures
        publication_of(q2, element_index, model_identifier) == publication_of(q, element_index, model_identifier),
{
    match first_publication(q, element_index, model_identifier) {
        Some(_) => {
            let i = first_publication(q, element_index, model_identifier)->0;
            let w = choose|k: int| 0 <= k < q.len() && holds_publication(#[trigger] q[k], element_index, model_identifier);
            lemma_first_publication_exists(q, element_index, model_identifier, w);
            assert(holds_publication(q2[i], element_index, model_identifier));
            assert forall|j: int| 0 <= j < i implies !holds_publication(#[trigger] q2[j], element_index, model_identifier) by {
                assert(!holds_publication(q[j], element_index, model_identifier));
            }
            lemma_first_publication_is(q2, element_index, model_identifier, i);
        },
        None => {
            assert forall|k: int| 0 <= k < q2.len() implies !holds_publication(#[trigger] q2[k], element_index, model_identifier) by {
                assert(!holds_publication(q[k], element_index, model_identifier));
            }
        },
    }
}

/// Setting the publication of one model of one element leaves what `get`
/// gives for every other element and model as it was, and a refused set
/// leaves the table as it was.
pub proof fn lemma_publication_set_keeps_others(
    q: Seq<Option<Publication>>,
    composition: Composition,
    element_index: u8,
    details: PublicationDetails,
    q2: Seq<Option<Publication>>,
    r: Result<(), DriverError>,
    other_element: u8,
    other_model: ModelIdentifier,
)
    requires
        publication_set(q, composition, element_index, details, q2, r),
        other_element != element_index || other_model != details.model_identifier,
    ensures
        publication_of(q2, other_element, other_model) == publication_of(q, other_element, other_model),
        r is Err ==> q2 == q,
{
    let m = details.model_identifier;
    if details.publish_address is Unassigned {
        assert forall|k: int| 0 <= k < q.len() implies (holds_publication(#[trigger] q2[k], other_element, other_model)
            == holds_publication(q[k], other_element, other_model)) by {
            assert(q2[k] == (if holds_publication(q[k], element_index, m) { None } else { q[k] }));
        }
        assert forall|k: int| 0 <= k < q.len() && holds_publication(#[trigger] q[k], other_element, other_model) implies q2[k] == q[k] by {
            assert(q2[k] == (if holds_publication(q[k], element_index, m) { None } else { q[k] }));
        }
        lemma_same_publication_of(q, q2, other_element, other_model);
    } else if r is Ok {
        let i: int = if first_publication(q, element_index, m) is Some {
            first_publication(q, element_index, m)->0
        } else {
            first_none(q)->0
        };
        if first_publication(q, element_index, m) is Some {
            let w = choose|k: int| 0 <= k < q.len() && holds_publication(#[trigger] q[k], element_index, m);
            lemma_first_publication_exists(q, element_index, m, w);
        } else {
            let w = choose|k: int| 0 <= k < q.len() && (#[trigger] q[k]) is None;
            lemma_first_none_exists(q, w);
        }
        assert(0 <= i < q.len());
        assert(q2 == q.update(i, Some(Publication { element_index, details })));
        assert(!holds_publication(q[i], other_element, other_model));
        lemma_same_publication_of(q, q2, other_element, other_model);
    }
}

/// Up to eight publications.
pub struct Publications {
    entries: Vec<Option<Publication>>,
}

impl Publications {
    pub closed spec fn slots(&self) -> Seq<Option<Publication>> {
        self.entries@
    }

    pub open spec fn wf(&self) -> bool {
        self.slots().len() == 8
    }

    /// Eight empty slots.
    pub fn new() -> (r: Publications)
        ensures
            r.wf(),
            forall|i: int| 0 <= i < 8 ==> (#[trigger] r.slots()[i]) is None,
    {
        let mut entries: Vec<Option<Publication>> = Vec::new();
        let mut i: usize = 0;
        while i < 8
            invariant
                i <= 8,
                entries@.len() == i,
                forall|j: int| 0 <= j < i ==> (#[trigger] entries@[j]) is None,
            decreases 8 - i,
        {
            entries.push(None);
            i = i + 1;
        }
        Publications { entries }
    }

    /// The first slot holding the publication of the model.
    fn find(&self, element_index: u8, model_identifier: ModelIdentifier) -> (r: Option<usize>)
        ensures
            match r {
                Some(k) => k < self.slots().len() && first_publication(self.slots(), element_index, model_identifier) == Some(k as int),
                None => first_publication(self.slots(), element_index, model_identifier) is None,
            },
    {
        let mut i: usize = 0;
        while i < self.entries.len()
            invariant
                i <= self.slots().len(),
                forall|j: int| 0 <= j < i ==> !holds_publication(#[trigger] self.slots()[j], element_index, model_identifier),
            decreases self.slots().len() - i,
        {
            let hit = match &self.entries[i] {
                Some(slot) => slot.element_index == element_index && slot.details.model_identifier == model_identifier,
                None => false,
            };
            if hit {
                proof {
                    let q = self.slots();
                    let c = choose|k: int| 0 <= k < q.len() && holds_publication(#[trigger] q[k], element_index, model_identifier)
                        && forall|j: int| 0 <= j < k ==> !holds_publication(q[j], element_index, model_identifier);
                    assert(holds_publication(q[i as int], element_index, model_identifier));
                    assert(c == i) by {
                        if c < i {
                            assert(!holds_publication(q[c], element_index, model_identifier));
                        } else if c > i {
                            assert(!holds_publication(q[i as int], element_index, model_identifier));
                        }
                    };
                }
                return Some(i);
            }
            i = i + 1;
        }
        None
    }

    /// The publication of the model, if it has one.
    pub fn get(&self, element_index: u8, model_identifier: ModelIdentifier) -> (r: Option<Publication>)
        ensures
            r == publication_of(self.slots(), element_index, model_identifier),
    {
        match self.find(element_index, model_identifier) {
            Some(i) => {
                self.entries[i]
            },
            None => None,
        }
    }

    /// Sets the publication of the model in `details`. An unassigned publish
    /// address removes it; an existing publication is replaced; otherwise a
    /// model the element lacks is refused and a full table has no room.
    pub fn set(&mut self, composition: &Composition, element_index: u8, details: PublicationDetails) -> (r: Result<(), DriverError>)
        requires
            old(self).wf(),
            details.publish_address is Unassigned
                || first_publication(old(self).slots(), element_index, details.model_identifier) is Some
                || (element_index as int) < composition.elements@.len(),
        ensures
            final(self).wf(),
            publication_set(old(self).slots(), *composition, element_index, details, final(self).slots(), r),
    {
        if let PublishAddress::Unassigned = details.publish_address {
            let ghost q = self.slots();
            let model_identifier = details.model_identifier;
            let mut i: usize = 0;
            while i < self.entries.len()
                invariant
                    q == old(self).slots(),
                    q.len() == 8,
                    self.slots().len() == 8,
                    i <= 8,
                    model_identifier == details.model_identifier,
                    forall|j: int| 0 <= j < i ==> #[trigger] self.slots()[j] == (if holds_publication(q[j], element_index, model_identifier) { None } else { q[j] }),
                    forall|j: int| i <= j < 8 ==> #[trigger] self.slots()[j] == q[j],
                decreases 8 - i,
            {
                let hit = match &self.entries[i] {
                    Some(slot) => slot.element_index == element_index && slot.details.model_identifier == model_identifier,
                    None => false,
                };
                if hit {
                    self.entries.set(i, None);
                }
                i = i + 1;
            }
            assert(self.slots() =~= q.map_values(
                |s: Option<Publication>| if holds_publication(s, element_index, model_identifier) { None } else { s },
            ));
            return Ok(());
        }
        if let Some(i) = self.find(element_index, details.model_identifier) {
            self.entries.set(i, Some(Publication { element_index, details }));
            return Ok(());
        }
        if composition.has_model(element_index, details.model_identifier) {
            match find_none(&self.entries) {
                Some(i) => {
                    self.entries.set(i, Some(Publication { element_index, details }));
                    Ok(())
                },
                None => Err(DriverError::InsufficientSpace),
            }
        } else {
            Err(DriverError::InvalidModel)
        }
    }
}

/// An application key bound to a model.
#[derive(Copy, Clone, Debug, PartialEq, Eq, Structural)]
pub struct ModelBinding {
    pub model_identifier: ModelIdentifier,
    pub app_key_index: AppKeyIndex,
}

/// Whether a slot holds a binding of the model.
pub open spec fn binds_model(s: Option<ModelBinding>, model_identifier: ModelIdentifier) -> bool {
    match s {
        Some(b) => b.model_identifier == model_identifier,
        None => false,
    }
}

/// The first binding of the model.
pub open spec fn first_binding(q: Seq<Option<ModelBinding>>, model_identifier: ModelIdentifier) -> Option<int> {
    if exists|i: int| 0 <= i < q.len() && #[trigger] binds_model(q[i], model_identifier) {
        Some(choose|i: int| 0 <= i < q.len() && #[trigger] binds_model(q[i], model_identifier)
            && forall|j: int| 0 <= j < i ==> !binds_model(q[j], model_identifier))
    } else {
        None
    }
}

/// The first slot holding exactly this binding.
pub open spec fn first_exact_binding(q: Seq<Option<ModelBinding>>, binding: ModelBinding) -> Option<int> {
    if exists|i: int| 0 <= i < q.len() && #[trigger] q[i] == Some(binding) {
        Some(choose|i: int| 0 <= i < q.len() && #[trigger] q[i] == Some(binding) && forall|j: int| 0 <= j < i ==> q[j] != Some(binding))
    } else {
        None
    }
}

/// Up to four application key bindings of the models of an element.
pub struct ElementBindings {
    bindings: Vec<Option<ModelBinding>>,
}

impl ElementBindings {
    pub closed spec fn slots(&self) -> Seq<Option<ModelBinding>> {
        self.bindings@
    }

    pub open spec fn wf(&self) -> bool {
        self.slots().len() == 4
    }

    /// Four empty slots.
    pub fn new() -> (r: ElementBindings)
        ensures
            r.wf(),
            forall|i: int| 0 <= i < 4 ==> (#[trigger] r.slots()[i]) is None,
    {
        let mut bindings: Vec<Option<ModelBinding>> = Vec::new();
        bindings.push(None);
        bindings.push(None);
        bindings.push(None);
        bindings.push(None);
        ElementBindings { bindings }
    }

    /// Binds an application key to a model in the first free slot.
    pub fn bind(&mut self, model_identifier: ModelIdentifier, app_key_index: AppKeyIndex) -> (r: Result<(), DriverError>)
        requires
            old(self).wf(),
        ensures
            final(self).wf(),
            match first_none(old(self).slots()) {
                Some(i) => r is Ok && final(self).slots() == old(self).slots().update(i, Some(ModelBinding { model_identifier, app_key_index })),
                None => r == Err::<(), DriverError>(DriverError::InsufficientSpace) && final(self).slots() == old(self).slots(),
            },
    {
        match find_none(&self.bindings) {
            Some(i) => {
                self.bindings.set(i, Some(ModelBinding { model_identifier, app_key_index }));
                Ok(())
            },
            None => Err(DriverError::InsufficientSpace),
        }
    }

    /// Removes the first binding of that key to that model, if any.
    pub fn unbind(&mut self, model_identifier: ModelIdentifier, app_key_index: AppKeyIndex) -> (r: Result<(), DriverError>)
        requires
            old(self).wf(),
        ensures
            r is Ok,
            final(self).wf(),
            match first_exact_binding(old(self).slots(), ModelBinding { model_identifier, app_key_index }) {
                Some(i) => final(self).slots() == old(self).slots().update(i, None),
                None => final(self).slots() == old(self).slots(),
            },
    {
        let binding = ModelBinding { model_identifier, app_key_index };
        let mut i: usize = 0;
        while i < self.bindings.len()
            invariant
                self.wf(),
                self.slots() == old(self).slots(),
                binding == (ModelBinding { model_identifier, app_key_index }),
                i <= 4,
                forall|j: int| 0 <= j < i ==> self.slots()[j] != Some(binding),
            decreases 4 - i,
        {
            let hit = match &self.bindings[i] {
                Some(b) => *b == binding,
                None => false,
            };
            if hit {
                proof {
                    let q = self.slots();
                    let c = choose|k: int| 0 <= k < q.len() && #[trigger] q[k] == Some(binding) && forall|j: int| 0 <= j < k ==> q[j] != Some(binding);
                    assert(q[i as int] == Some(binding));
                    assert(c == i) by {
                        if c < i {
                            assert(q[c] != Some(binding));
                        } else if c > i {
                            assert(q[i as int] != Some(binding));
                        }
                    };
                }
                self.bindings.set(i, None);
                return Ok(());
            }
            i = i + 1;
        }
        Ok(())
    }

    /// The application key of the first binding of the model.
    pub fn binding_for(&self, model_identifier: &ModelIdentifier) -> (r: Option<AppKeyIndex>)
        ensures
            r == (match first_binding(self.slots(), *model_identifier) {
                Some(i) => Some(self.slots()[i]->0.app_key_index),
                None => None::<AppKeyIndex>,
            }),
    {
        let mut i: usize = 0;
        while i < self.bindings.len()
            invariant
                i <= self.slots().len(),
                forall|j: int| 0 <= j < i ==> !binds_model(self.slots()[j], *model_identifier),
            decreases self.slots().len() - i,
        {
            match &self.bindings[i] {
                Some(b) => {
                    if b.model_identifier == *model_identifier {
                        proof {
                            let q = self.slots();
                            let c = choose|k: int| 0 <= k < q.len() && #[trigger] binds_model(q[k], *model_identifier)
                                && forall|j: int| 0 <= j < k ==> !binds_model(q[j], *model_identifier);
                            assert(binds_model(q[i as int], *model_identifier));
                            assert(c == i) by {
                                if c < i {
                                    assert(!binds_model(q[c], *model_identifier));
                                } else if c > i {
                                    assert(!binds_model(q[i as int], *model_identifier));
                                }
                            };
                        }
                        return Some(b.app_key_index);
                    }
                },
                None => {},
            }
            i = i + 1;
        }
        None
    }
}

/// The application key bindings of up to eight elements.
pub struct Bindings {
    elements: Vec<ElementBindings>,
}

impl Bindings {
    /// The bindings of each element.
    pub closed spec fn element_slots(&self) -> Seq<Seq<Option<ModelBinding>>> {
        self.elements@.map_values(|e: ElementBindings| e.slots())
    }

    pub closed spec fn wf(&self) -> bool {
        &&& self.elements@.len() == 8
        &&& forall|i: int| 0 <= i < 8 ==> (#[trigger] self.elements@[i]).wf()
    }

    /// No binding.
    pub fn new() -> (r: Bindings)
        ensures
            r.wf(),
            forall|i: int, j: int| 0 <= i < 8 && 0 <= j < 4 ==> (#[trigger] r.element_slots()[i][j]) is None,
    {
        let mut elements: Vec<ElementBindings> = Vec::new();
        let mut i: usize = 0;
        while i < 8
            invariant
                i <= 8,
                elements@.len() == i,
                forall|k: int| 0 <= k < i ==> (#[trigger] elements@[k]).wf(),
                forall|k: int, j: int| 0 <= k < i && 0 <= j < 4 ==> (#[trigger] elements@[k].slots()[j]) is None,
            decreases 8 - i,
        {
            elements.push(ElementBindings::new());
            i = i + 1;
        }
        let r = Bindings { elements };
        assert forall|k: int, j: int| 0 <= k < 8 && 0 <= j < 4 implies (#[trigger] r.element_slots()[k][j]) is None by {
            assert(r.element_slots()[k] == r.elements@[k].slots());
        }
        r
    }

    /// Binds an application key to a model of an element: elements beyond the
    /// eighth, and models the element lacks, are refused.
    pub fn bind(&mut self, composition: &Composition, element_index: u8, model_identifier: ModelIdentifier, app_key_index: AppKeyIndex) -> (r: Result<(), DriverError>)
        requires
            old(self).wf(),
            element_index >= 8 || (element_index as int) < composition.elements@.len(),
        ensures
            final(self).wf(),
            element_index >= 8 ==> r == Err::<(), DriverError>(DriverError::InvalidModel) && final(self).element_slots() == old(self).element_slots(),
            element_index < 8 && !composition.spec_has_model(element_index, model_identifier) ==> r == Err::<(), DriverError>(
                DriverError::InvalidModel,
            ) && final(self).element_slots() == old(self).element_slots(),
            element_index < 8 && composition.spec_has_model(element_index, model_identifier) ==> match first_none(
                old(self).element_slots()[element_index as int],
            ) {
                Some(i) => r is Ok && final(self).element_slots() == old(self).element_slots().update(
                    element_index as int,
                    old(self).element_slots()[element_index as int].update(i, Some(ModelBinding { model_identifier, app_key_index })),
                ),
                None => r == Err::<(), DriverError>(DriverError::InsufficientSpace) && final(self).element_slots() == old(self).element_slots(),
            },
    {
        if element_index as usize >= 8 {
            return Err(DriverError::InvalidModel);
        }
        if composition.has_model(element_index, model_identifier) {
            let ghost before = self.elements@;
            let r = self.elements[element_index as usize].bind(model_identifier, app_key_index);
            proof {
                assert(self.element_slots() =~= before.map_values(|e: ElementBindings| e.slots()).update(
                    element_index as int,
                    self.elements@[element_index as int].slots(),
                ));
                assert forall|i: int| 0 <= i < 8 implies (#[trigger] self.elements@[i]).wf() by {
                    if i != element_index {
                        assert(self.elements@[i] == before[i]);
                    }
                }
            }
            r
        } else {
            Err(DriverError::InvalidModel)
        }
    }

    /// Removes a binding of an application key to a model of an element:
    /// elements beyond the eighth, and models the element lacks, are refused.
    pub fn unbind(&mut self, composition: &Composition, element_index: u8, model_identifier: ModelIdentifier, app_key_index: AppKeyIndex) -> (r: Result<(), DriverError>)
        requires
            old(self).wf(),
            element_index >= 8 || (element_index as int) < composition.elements@.len(),
        ensures
            final(self).wf(),
            element_index >= 8 ==> r == Err::<(), DriverError>(DriverError::InvalidModel) && final(self).element_slots() == old(self).element_slots(),
            element_index < 8 && !composition.spec_has_model(element_index, model_identifier) ==> r == Err::<(), DriverError>(
                DriverError::InvalidModel,
            ) && final(self).element_slots() == old(self).element_slots(),
            element_index < 8 && composition.spec_has_model(element_index, model_identifier) ==> r is Ok && match first_exact_binding(
                old(self).element_slots()[element_index as int],
                ModelBinding { model_identifier, app_key_index },
            ) {
                Some(i) => final(self).element_slots() == old(self).element_slots().update(
                    element_index as int,
                    old(self).element_slots()[element_index as int].update(i, None),
                ),
                None => final(self).element_slots() == old(self).element_slots(),
            },
    {
        if element_index as usize >= 8 {
            return Err(DriverError::InvalidModel);
        }
        if composition.has_model(element_index, model_identifier) {
            let ghost before = self.elements@;
            let r = self.elements[element_index as usize].unbind(model_identifier, app_key_index);
            proof {
                assert(self.element_slots() =~= before.map_values(|e: ElementBindings| e.slots()).update(
                    element_index as int,
                    self.elements@[element_index as int].slots(),
                ));
                assert forall|i: int| 0 <= i < 8 implies (#[trigger] self.elements@[i]).wf() by {
                    if i != element_index {
                        assert(self.elements@[i] == before[i]);
                    }
                }
            }
            r
        } else {
            Err(DriverError::InvalidModel)
        }
    }

    /// The application key bound to a model of an element.
    pub fn binding_for(&self, element_index: u8, model_identifier: &ModelIdentifier) -> (r: Option<AppKeyIndex>)
        requires
            self.wf(),
            element_index < 8,
        ensures
            r == (match first_binding(self.element_slots()[element_index as int], *model_identifier) {
                Some(i) => Some(self.element_slots()[element_index as int][i]->0.app_key_index),
                None => None::<AppKeyIndex>,
            }),
    {
        self.elements[element_index as usize].binding_for(model_identifier)
    }
}

/// Binding a key to a model with no binding yet makes it the model's key.
pub proof fn lemma_bind_then_binding_for(
    q: Seq<Option<ModelBinding>>,
    i: int,
    model_identifier: ModelIdentifier,
    app_key_index: AppKeyIndex,
)
    requires
        0 <= i < q.len(),
        first_binding(q, model_identifier) is None,
    ensures
        first_binding(q.update(i, Some(ModelBinding { model_identifier, app_key_index })), model_identifier) == Some(i),
{
    let q2 = q.update(i, Some(ModelBinding { model_identifier, app_key_index }));
    assert(binds_model(q2[i], model_identifier));
    let c = choose|k: int| 0 <= k < q2.len() && #[trigger] binds_model(q2[k], model_identifier)
        && forall|j: int| 0 <= j < k ==> !binds_model(q2[j], model_identifier);
    assert(c == i) by {
        if c != i {
            assert(q2[c] == q[c]);
        }
        if c > i {
            assert(!binds_model(q2[i], model_identifier));
        }
    };
}

} // verus!
