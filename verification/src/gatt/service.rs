use vstd::prelude::*;

use crate::error::Error;
use crate::gatt::characteristic::{characteristic_equivalent, Characteristic};
use crate::uuid128::Uuid;

verus! {

/// A GATT service: a primary or secondary grouping of characteristics under
/// one identifier. Caller-constructed, then copied into the worker's private
/// state on registration.
#[derive(Debug)]
pub struct Service {
    pub uuid: Uuid,
    pub primary: bool,
    pub characteristics: Vec<Characteristic>,
}

impl Clone for Service {
    /// The copy registered with a worker describes the caller's service
    /// exactly: same identifier, same primariness, and characteristic for
    /// characteristic the same fields, descriptors included.
    fn clone(&self) -> (res: Self)
        ensures
            res.uuid == self.uuid,
            res.primary == self.primary,
            res.characteristics@.len() == self.characteristics@.len(),
            forall|i: int|
                0 <= i < self.characteristics@.len() ==> characteristic_equivalent(
                    #[trigger] res.characteristics@[i],
                    self.characteristics@[i],
                ),
            res.valid() == self.valid(),
    {
        let mut characteristics: Vec<Characteristic> = Vec::new();
        let mut i: usize = 0;
        while i < self.characteristics.len()
            invariant
                0 <= i <= self.characteristics@.len(),
                characteristics@.len() == i,
                forall|j: int|
                    0 <= j < i ==> (#[trigger] characteristics@[j]).valid() == self
                        .characteristics@[j].valid(),
                forall|j: int|
                    0 <= j < i ==> characteristic_equivalent(
                        #[trigger] characteristics@[j],
                        self.characteristics@[j],
                    ),
            decreases self.characteristics@.len() - i,
        {
            characteristics.push(self.characteristics[i].clone());
            i += 1;
        }
        let res = Service { uuid: self.uuid, primary: self.primary, characteristics };
        proof {
            if res.valid() && !self.valid() {
                let j = choose|j: int|
                    0 <= j < self.characteristics@.len() && !self.characteristics@[j].valid();
                assert(res.characteristics@[j].valid());
            }
            if self.valid() && !res.valid() {
                let j = choose|j: int|
                    0 <= j < res.characteristics@.len() && !res.characteristics@[j].valid();
                assert(self.characteristics@[j].valid());
            }
        }
        res
    }
}

impl Service {
    /// Every characteristic of the service satisfies the static-value
    /// invariant.
    pub open spec fn valid(self) -> bool {
        forall|i: int|
            0 <= i < self.characteristics@.len() ==> (
            #[trigger] self.characteristics@[i]).valid()
    }

    pub fn new(uuid: Uuid, primary: bool, characteristics: Vec<Characteristic>) -> (s: Service)
        ensures
            s.uuid == uuid,
            s.primary == primary,
            s.characteristics == characteristics,
    {
        Service { uuid, primary, characteristics }
    }

    /// Decides [`Service::valid`]: accepts the service exactly when no
    /// attribute in it pairs a static value with an encryption-gated
    /// permission, and otherwise fails fast with `InvalidAttribute` so the
    /// offending set never reaches a native adapter.
    pub fn validate(&self) -> (r: Result<(), Error>)
        ensures
            r is Ok <==> self.valid(),
            r is Err ==> r matches Err(Error::InvalidAttribute),
    {
        let mut i: usize = 0;
        while i < self.characteristics.len()
            invariant
                0 <= i <= self.characteristics@.len(),
                forall|j: int|
                    0 <= j < i ==> (#[trigger] self.characteristics@[j]).valid(),
            decreases self.characteristics@.len() - i,
        {
            if let Err(e) = self.characteristics[i].validate() {
                return Err(e);
            }
            i += 1;
        }
        Ok(())
    }
}

} // verus!
