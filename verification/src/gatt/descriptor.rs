use vstd::prelude::*;

use crate::gatt::properties::{
    has_permission, AttributePermission, CharacteristicProperty,
};
use crate::uuid128::Uuid;

verus! {

/// A GATT descriptor: an immutable attribute attached to a characteristic.
/// `value` is an optional static value served by the native stack itself.
#[derive(Debug)]
pub struct Descriptor {
    pub uuid: Uuid,
    pub properties: Vec<CharacteristicProperty>,
    pub permissions: Vec<AttributePermission>,
    pub value: Option<Vec<u8>>,
}

/// Whether `p` demands an encrypted link.
pub open spec fn encryption_required(p: AttributePermission) -> bool {
    p == AttributePermission::ReadEncryptionRequired || p
        == AttributePermission::WriteEncryptionRequired
}

/// The two descriptors describe the same attribute, field for field.
pub open spec fn descriptor_equivalent(a: Descriptor, b: Descriptor) -> bool {
    &&& a.uuid == b.uuid
    &&& a.properties@ == b.properties@
    &&& a.permissions@ == b.permissions@
    &&& a.value is Some <==> b.value is Some
    &&& a.value matches Some(v) ==> (b.value matches Some(w) && v@ == w@)
}

impl Clone for Descriptor {
    /// A clone carries the same attribute, field for field.
    fn clone(&self) -> (res: Self)
        ensures
            descriptor_equivalent(res, *self),
            res.value_permitted() == self.value_permitted(),
    {
        let res = Descriptor {
            uuid: self.uuid,
            properties: vstd::slice::slice_to_vec(self.properties.as_slice()),
            permissions: vstd::slice::slice_to_vec(self.permissions.as_slice()),
            value: match &self.value {
                Some(bytes) => Some(vstd::slice::slice_to_vec(bytes.as_slice())),
                None => None,
            },
        };
        proof {
            assert(res.permissions@ == self.permissions@);
            if res.value_permitted() && !self.value_permitted() {
                let i = choose|i: int|
                    0 <= i < self.permissions@.len() && encryption_required(self.permissions@[i]);
                assert(!encryption_required(res.permissions@[i]));
            }
            if self.value_permitted() && !res.value_permitted() {
                let i = choose|i: int|
                    0 <= i < res.permissions@.len() && encryption_required(res.permissions@[i]);
                assert(!encryption_required(self.permissions@[i]));
            }
        }
        res
    }
}

impl Descriptor {
    /// A static value may only be present when no permission demands
    /// encryption: native stacks refuse an attribute that combines a
    /// stack-served value with an encryption gate the stack would have to
    /// enforce per-link.
    pub open spec fn value_permitted(self) -> bool {
        self.value is Some ==> forall|i: int|
            0 <= i < self.permissions@.len() ==> !encryption_required(self.permissions@[i])
    }

    pub fn new(
        uuid: Uuid,
        properties: Vec<CharacteristicProperty>,
        permissions: Vec<AttributePermission>,
        value: Option<Vec<u8>>,
    ) -> (d: Descriptor)
        ensures
            d.uuid == uuid,
            d.properties == properties,
            d.permissions == permissions,
            d.value == value,
    {
        Descriptor { uuid, properties, permissions, value }
    }

    /// Decides [`Descriptor::value_permitted`].
    pub fn check_value_permitted(&self) -> (r: bool)
        ensures
            r == self.value_permitted(),
    {
        if self.value.is_none() {
            return true;
        }
        let read_enc = has_permission(
            &self.permissions,
            AttributePermission::ReadEncryptionRequired,
        );
        let write_enc = has_permission(
            &self.permissions,
            AttributePermission::WriteEncryptionRequired,
        );
        if read_enc || write_enc {
            proof {
                assert(!self.value_permitted());
            }
            false
        } else {
            proof {
                assert forall|i: int|
                    0 <= i < self.permissions@.len() implies !encryption_required(
                    self.permissions@[i],
                ) by {
                    assert(self.permissions@.contains(self.permissions@[i]));
                }
            }
            true
        }
    }
}

} // verus!
