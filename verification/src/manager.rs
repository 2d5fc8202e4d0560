//! The shipping manager: the registry of carrier collaborators and the
//! dispatcher for every cross-carrier operation. It owns shared handles
//! to the registered carriers, keyed by identity; registering a second
//! carrier under the same identity replaces the first.

use std::sync::Arc;

use vstd::prelude::*;

use crate::errors::DeliveryError;
use crate::models::{CarrierCode, Parcel, Rate, ShippingLabel, TrackingInfo};
use crate::traits::ShippingCarrier;

verus! {

/// Hands out one more shared handle to a registered carrier, so a lookup
/// can return a carrier without the registry giving it up.
///
/// Relies on `Arc::clone`: the returned handle refers to the very value
/// the argument refers to.
#[verifier::external_body]
fn clone_handle<C>(handle: &Arc<C>) -> (r: Arc<C>)
    ensures
        r == *handle,
{
    Arc::clone(handle)
}

/// The registry and dispatcher over every registered carrier. Generic
/// over the carrier contract; each entry is a shared, reference-counted
/// handle, so lookups can hand out additional references.
pub struct ShippingManager<C: ShippingCarrier> {
    carriers: Vec<(CarrierCode, Arc<C>)>,
}

impl<C: ShippingCarrier> ShippingManager<C> {
    /// How many carriers are registered.
    pub closed spec fn spec_len(&self) -> nat {
        self.carriers@.len()
    }

    /// The identity registered at a position.
    pub closed spec fn spec_code_at(&self, i: int) -> CarrierCode {
        self.carriers@[i].0
    }

    /// The carrier registered at a position.
    pub closed spec fn spec_carrier_at(&self, i: int) -> C {
        *self.carriers@[i].1
    }

    /// Whether some carrier is registered under the identity.
    pub open spec fn spec_has_carrier(&self, code: CarrierCode) -> bool {
        exists|i: int| 0 <= i < self.spec_len() && self.spec_code_at(i) == code
    }

    /// The position the identity is registered at.
    pub open spec fn spec_index_of(&self, code: CarrierCode) -> int {
        choose|i: int| 0 <= i < self.spec_len() && self.spec_code_at(i) == code
    }

    /// The carrier registered under the identity.
    pub open spec fn spec_carrier(&self, code: CarrierCode) -> C {
        self.spec_carrier_at(self.spec_index_of(code))
    }

    /// The registry's invariant: identities are unique keys, and each
    /// entry is keyed by its carrier's own reported identity.
    pub open spec fn wf(&self) -> bool {
        &&& forall|i: int, j: int|
            0 <= i < j < self.spec_len() ==> self.spec_code_at(i) != self.spec_code_at(j)
        &&& forall|i: int|
            0 <= i < self.spec_len() ==> (#[trigger] self.spec_carrier_at(i)).spec_code()
                == self.spec_code_at(i)
    }

    /// An identity occurs at most once, so any position holding it is the
    /// registered position.
    proof fn lemma_index_of_unique(&self, code: CarrierCode, i: int)
        requires
            self.wf(),
            0 <= i < self.spec_len(),
            self.spec_code_at(i) == code,
        ensures
            self.spec_index_of(code) == i,
    {
        assert(self.spec_has_carrier(code));
        let j = self.spec_index_of(code);
        if i < j {
            assert(self.spec_code_at(i) != self.spec_code_at(j));
        } else if j < i {
            assert(self.spec_code_at(j) != self.spec_code_at(i));
        }
    }

    /// Creates an empty manager: nothing registered.
    pub fn new() -> (r: ShippingManager<C>)
        ensures
            r.wf(),
            r.spec_len() == 0,
            forall|code: CarrierCode| !r.spec_has_carrier(code),
    {
        ShippingManager { carriers: Vec::new() }
    }

    /// Finds the position a code is registered at, if any.
    fn find_index(&self, code: &CarrierCode) -> (r: Option<usize>)
        ensures
            match r {
                Some(i) => 0 <= i < self.spec_len() && self.spec_code_at(i as int) == *code,
                None => !self.spec_has_carrier(*code),
            },
    {
        let n = self.carriers.len();
        let mut i: usize = 0;
        while i < n
            invariant
                n == self.spec_len(),
                i <= n,
                forall|k: int| 0 <= k < i ==> self.spec_code_at(k) != *code,
            decreases n - i,
        {
            if self.carriers[i].0 == *code {
                return Some(i);
            }
            i += 1;
        }
        None
    }

    /// Registers a carrier under its self-reported identity. Idempotent
    /// per identity: a carrier already registered under the same identity
    /// is replaced, and every other registration is untouched.
    pub fn add_carrier(&mut self, carrier: C)
        requires
            old(self).wf(),
        ensures
            final(self).wf(),
            final(self).spec_has_carrier(carrier.spec_code()),
            final(self).spec_carrier(carrier.spec_code()) == carrier,
            forall|code: CarrierCode|
                code != carrier.spec_code() ==> (final(self).spec_has_carrier(code) <==> old(self).spec_has_carrier(code)),
            forall|code: CarrierCode|
                code != carrier.spec_code() && old(self).spec_has_carrier(code)
                    ==> final(self).spec_carrier(code) == old(self).spec_carrier(code),
    {
        let code = carrier.carrier_code();
        let handle = Arc::new(carrier);
        let found = self.find_index(&code);
        match found {
            Some(i) => {
                self.carriers.set(i, (code, handle));
                proof {
                    assert(forall|k: int|
                        0 <= k < self.spec_len() && k != i ==> self.spec_code_at(k) == old(
                            self,
                        ).spec_code_at(k) && self.spec_carrier_at(k) == old(self).spec_carrier_at(
                            k,
                        ));
                    self.lemma_index_of_unique(carrier.spec_code(), i as int);
                    assert forall|c: CarrierCode|
                        c != carrier.spec_code() && old(self).spec_has_carrier(c) implies self
                        .spec_carrier(c) == old(self).spec_carrier(c) by {
                        let k = old(self).spec_index_of(c);
                        assert(0 <= k < self.spec_len() && self.spec_code_at(k) == c);
                        self.lemma_index_of_unique(c, k);
                    };
                }
            },
            None => {
                self.carriers.push((code, handle));
                proof {
                    let n = self.spec_len() - 1;
                    assert(forall|k: int|
                        0 <= k < n ==> self.spec_code_at(k) == old(self).spec_code_at(k)
                            && self.spec_carrier_at(k) == old(self).spec_carrier_at(k));
                    self.lemma_index_of_unique(carrier.spec_code(), n);
                    assert forall|c: CarrierCode|
                        c != carrier.spec_code() && old(self).spec_has_carrier(c) implies self
                        .spec_carrier(c) == old(self).spec_carrier(c) by {
                        let k = old(self).spec_index_of(c);
                        assert(0 <= k < self.spec_len() && self.spec_code_at(k) == c);
                        self.lemma_index_of_unique(c, k);
                    };
                }
            },
        }
    }

    /// Looks up the carrier registered under an identity; absence is not
    /// an error at this level. The returned handle shares ownership with
    /// the registry.
    pub fn get_carrier(&self, code: &CarrierCode) -> (r: Option<Arc<C>>)
        requires
            self.wf(),
        ensures
            r is Some <==> self.spec_has_carrier(*code),
            r matches Some(c) ==> *c == self.spec_carrier(*code),
    {
        match self.find_index(code) {
            Some(i) => {
                proof {
                    self.lemma_index_of_unique(*code, i as int);
                }
                Some(clone_handle(&self.carriers[i].1))
            },
            None => None,
        }
    }

    /// Lists the registered carriers with their display names. The
    /// registry is not ordered: callers must not read meaning into the
    /// order of the entries.
    pub fn list_carriers(&self) -> (r: Vec<(CarrierCode, String)>)
        requires
            self.wf(),
        ensures
            r@.len() == self.spec_len(),
            forall|i: int|
                0 <= i < r@.len() ==> (#[trigger] r@[i]).0 == self.spec_code_at(i) && r@[i].1@
                    == self.spec_carrier_at(i).spec_name(),
    {
        let n = self.carriers.len();
        let mut out: Vec<(CarrierCode, String)> = Vec::new();
        let mut i: usize = 0;
        while i < n
            invariant
                n == self.spec_len(),
                i <= n,
                out@.len() == i,
                forall|k: int|
                    0 <= k < i ==> (#[trigger] out@[k]).0 == self.spec_code_at(k) && out@[k].1@
                        == self.spec_carrier_at(k).spec_name(),
            decreases n - i,
        {
            let code = self.carriers[i].0;
            let name = self.carriers[i].1.carrier_name();
            out.push((code, name));
            i += 1;
        }
        out
    }

    /// Queries every registered carrier for its rates, independently: one
    /// entry per registered carrier, a failing carrier captured in its
    /// own slot without disturbing the others.
    pub fn get_all_rates(&self, parcel: &Parcel) -> (r: Vec<
        (CarrierCode, Result<Vec<Rate>, DeliveryError>),
    >)
        requires
            self.wf(),
        ensures
            r@.len() == self.spec_len(),
            forall|i: int|
                0 <= i < r@.len() ==> (#[trigger] r@[i]).0 == self.spec_code_at(i) && self
                    .spec_carrier_at(i).rates_post(*parcel, r@[i].1),
    {
        let n = self.carriers.len();
        let mut out: Vec<(CarrierCode, Result<Vec<Rate>, DeliveryError>)> = Vec::new();
        let mut i: usize = 0;
        while i < n
            invariant
                n == self.spec_len(),
                i <= n,
                out@.len() == i,
                forall|k: int|
                    0 <= k < i ==> (#[trigger] out@[k]).0 == self.spec_code_at(k) && self
                        .spec_carrier_at(k).rates_post(*parcel, out@[k].1),
            decreases n - i,
        {
            let code = self.carriers[i].0;
            let result = self.carriers[i].1.get_rates_blocking(parcel);
            out.push((code, result));
            i += 1;
        }
        out
    }

    /// A rate query answers every registered carrier exactly once: in any
    /// result carrying the codes `get_all_rates` promises (one slot per
    /// registry position), each registered identity owns exactly one
    /// slot, however many carriers failed.
    pub proof fn lemma_one_rate_slot_per_carrier(
        &self,
        r: Seq<(CarrierCode, Result<Vec<Rate>, DeliveryError>)>,
        code: CarrierCode,
    )
        requires
            self.wf(),
            r.len() == self.spec_len(),
            forall|i: int| 0 <= i < r.len() ==> (#[trigger] r[i]).0 == self.spec_code_at(i),
            self.spec_has_carrier(code),
        ensures
            exists|i: int|
                {
                    &&& 0 <= i < r.len()
                    &&& (#[trigger] r[i]).0 == code
                    &&& forall|j: int| 0 <= j < r.len() && (#[trigger] r[j]).0 == code ==> j == i
                },
    {
        let w = self.spec_index_of(code);
        assert(0 <= w < r.len() && r[w].0 == code);
        assert forall|j: int| 0 <= j < r.len() && (#[trigger] r[j]).0 == code implies j == w by {
            self.lemma_index_of_unique(code, j);
        }
        assert(0 <= w < r.len() && (r[w]).0 == code && forall|j: int|
            0 <= j < r.len() && (#[trigger] r[j]).0 == code ==> j == w);
    }

    /// Asks one carrier for its rates. Fails with `UnknownCarrier` when
    /// nothing is registered under the identity; otherwise the answer is
    /// the carrier's own, satisfying that carrier's rate promise.
    pub fn get_rates_blocking(&self, carrier_code: &CarrierCode, parcel: &Parcel) -> (r: Result<
        Vec<Rate>,
        DeliveryError,
    >)
        requires
            self.wf(),
        ensures
            !self.spec_has_carrier(*carrier_code) ==> (r matches Err(e) && e matches
                DeliveryError::UnknownCarrier(m) && m@ == carrier_code.spec_label()),
            self.spec_has_carrier(*carrier_code) ==> self.spec_carrier(*carrier_code).rates_post(
                *parcel,
                r,
            ),
    {
        match self.find_index(carrier_code) {
            Some(i) => {
                proof {
                    self.lemma_index_of_unique(*carrier_code, i as int);
                }
                self.carriers[i].1.get_rates_blocking(parcel)
            },
            None => Err(DeliveryError::UnknownCarrier(carrier_code.label())),
        }
    }

    /// Asks one carrier to generate a label for a parcel under a
    /// previously obtained rate. Fails with `UnknownCarrier` when nothing
    /// is registered under the identity; the rate is not re-validated
    /// here — rejecting a stale or mismatched rate is the carrier's
    /// responsibility.
    pub fn generate_label_blocking(
        &self,
        carrier_code: &CarrierCode,
        parcel: &Parcel,
        rate: &Rate,
    ) -> (r: Result<ShippingLabel, DeliveryError>)
        requires
            self.wf(),
        ensures
            !self.spec_has_carrier(*carrier_code) ==> (r matches Err(e) && e matches
                DeliveryError::UnknownCarrier(m) && m@ == carrier_code.spec_label()),
            self.spec_has_carrier(*carrier_code) ==> self.spec_carrier(*carrier_code).label_post(
                *parcel,
                *rate,
                r,
            ),
    {
        match self.find_index(carrier_code) {
            Some(i) => {
                proof {
                    self.lemma_index_of_unique(*carrier_code, i as int);
                }
                self.carriers[i].1.generate_label_blocking(parcel, rate)
            },
            None => Err(DeliveryError::UnknownCarrier(carrier_code.label())),
        }
    }

    /// Tracks a parcel, auto-detecting the carrier: the registered
    /// carriers are probed in registry order and the first whose
    /// `can_track` claims the number answers. Fails with
    /// `UnsupportedTrackingNumber` when no registered carrier recognizes
    /// the format. Where two registered carriers' formats overlap, which
    /// one answers is an artifact of registration order: keep formats
    /// mutually exclusive.
    pub fn track_parcel_blocking(&self, tracking_number: &str) -> (r: Result<
        TrackingInfo,
        DeliveryError,
    >)
        requires
            self.wf(),
        ensures
            (forall|i: int|
                0 <= i < self.spec_len() ==> !(#[trigger] self.spec_carrier_at(i)).spec_can_track(
                    tracking_number@,
                )) ==> (r matches Err(e) && e matches DeliveryError::UnsupportedTrackingNumber(m)
                && m@ == tracking_number@),
            (exists|i: int|
                0 <= i < self.spec_len() && (#[trigger] self.spec_carrier_at(i)).spec_can_track(
                    tracking_number@,
                )) ==> exists|i: int|
                {
                    &&& 0 <= i < self.spec_len()
                    &&& (#[trigger] self.spec_carrier_at(i)).spec_can_track(tracking_number@)
                    &&& forall|j: int|
                        0 <= j < i ==> !(#[trigger] self.spec_carrier_at(j)).spec_can_track(
                            tracking_number@,
                        )
                    &&& self.spec_carrier_at(i).track_post(tracking_number@, r)
                },
    {
        let n = self.carriers.len();
        let mut i: usize = 0;
        while i < n
            invariant
                self.wf(),
                n == self.spec_len(),
                i <= n,
                forall|k: int|
                    0 <= k < i ==> !(#[trigger] self.spec_carrier_at(k)).spec_can_track(
                        tracking_number@,
                    ),
            decreases n - i,
        {
            if self.carriers[i].1.can_track(tracking_number) {
                let r = self.carriers[i].1.track_parcel_blocking(tracking_number);
                proof {
                    assert(self.spec_carrier_at(i as int).spec_can_track(tracking_number@));
                    assert(self.spec_carrier_at(i as int).track_post(tracking_number@, r));
                }
                return r;
            }
            i += 1;
        }
        Err(DeliveryError::UnsupportedTrackingNumber(String::from_str(tracking_number)))
    }

    /// Whether a carrier is registered under the identity and reports
    /// itself available. False for an unregistered identity.
    pub fn is_carrier_available(&self, carrier_code: &CarrierCode) -> (r: bool)
        requires
            self.wf(),
        ensures
            !self.spec_has_carrier(*carrier_code) ==> r == false,
            self.spec_has_carrier(*carrier_code) ==> self.spec_carrier(*carrier_code).avail_post(
                r,
            ),
    {
        match self.find_index(carrier_code) {
            Some(i) => {
                proof {
                    self.lemma_index_of_unique(*carrier_code, i as int);
                }
                self.carriers[i].1.is_available_blocking()
            },
            None => false,
        }
    }
}

impl<C: ShippingCarrier> Default for ShippingManager<C> {
    /// The default manager is the empty one.
    fn default() -> (r: Self)
        ensures
            r.wf(),
            r.spec_len() == 0,
    {
        ShippingManager::new()
    }
}

} // verus!
