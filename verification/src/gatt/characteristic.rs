use vstd::prelude::*;

use crate::error::Error;
use crate::gatt::descriptor::{descriptor_equivalent, Descriptor};
use crate::gatt::properties::{
    has_permission, translate, AttributePermission, CharacteristicProperty,
};
use crate::uuid128::Uuid;

verus! {

/// A GATT characteristic: an attribute with a property set, a permission
/// set, an optional static value and attached descriptors.
#[derive(Debug)]
pub struct Characteristic {
    pub uuid: Uuid,
    pub properties: Vec<CharacteristicProperty>,
    pub permissions: Vec<AttributePermission>,
    pub value: Option<Vec<u8>>,
    pub descriptors: Vec<Descriptor>,
}

/// The two characteristics describe the same attribute, field for field,
/// descriptors included.
pub open spec fn characteristic_equivalent(a: Characteristic, b: Characteristic) -> bool {
    &&& a.uuid == b.uuid
    &&& a.properties@ == b.properties@
    &&& a.permissions@ == b.permissions@
    &&& a.value is Some <==> b.value is Some
    &&& a.value matches Some(v) ==> (b.value matches Some(w) && v@ == w@)
    &&& a.descriptors@.len() == b.descriptors@.len()
    &&& forall|j: int|
        0 <= j < a.descriptors@.len() ==> descriptor_equivalent(
            #[trigger] a.descriptors@[j],
            b.descriptors@[j],
        )
}

impl Clone for Characteristic {
    /// A clone carries the same attribute: every field is preserved, down
    /// to each descriptor's.
    fn clone(&self) -> (res: Self)
        ensures
            characteristic_equivalent(res, *self),
            res.valid() == self.valid(),
    {
        let mut descriptors: Vec<Descriptor> = Vec::new();
        let mut i: usize = 0;
        while i < self.descriptors.len()
            invariant
                0 <= i <= self.descriptors@.len(),
                descriptors@.len() == i,
                forall|j: int|
                    0 <= j < i ==> (#[trigger] descriptors@[j]).value_permitted() == self
                        .descriptors@[j].value_permitted(),
                forall|j: int|
                    0 <= j < i ==> descriptor_equivalent(
                        #[trigger] descriptors@[j],
                        self.descriptors@[j],
                    ),
            decreases self.descriptors@.len() - i,
        {
            descriptors.push(self.descriptors[i].clone());
            i += 1;
        }
        let res = Characteristic {
            uuid: self.uuid,
            properties: vstd::slice::slice_to_vec(self.properties.as_slice()),
            permissions: vstd::slice::slice_to_vec(self.permissions.as_slice()),
            value: match &self.value {
                Some(bytes) => Some(vstd::slice::slice_to_vec(bytes.as_slice())),
                None => None,
            },
            descriptors,
        };
        proof {
            assert(res.permissions@ == self.permissions@);
            if res.own_value_permitted() && !self.own_value_permitted() {
                let i = choose|i: int|
                    0 <= i < self.permissions@.len()
                        && crate::gatt::descriptor::encryption_required(self.permissions@[i]);
                assert(!crate::gatt::descriptor::encryption_required(res.permissions@[i]));
            }
            if self.own_value_permitted() && !res.own_value_permitted() {
                let i = choose|i: int|
                    0 <= i < res.permissions@.len()
                        && crate::gatt::descriptor::encryption_required(res.permissions@[i]);
                assert(!crate::gatt::descriptor::encryption_required(self.permissions@[i]));
            }
            assert(res.own_value_permitted() == self.own_value_permitted());
            if res.valid() && !self.valid() {
                let j = choose|j: int|
                    0 <= j < self.descriptors@.len() && !self.descriptors@[j].value_permitted();
                assert(res.descriptors@[j].value_permitted());
            }
            if self.valid() && !res.valid() {
                let j = choose|j: int|
                    0 <= j < res.descriptors@.len() && !res.descriptors@[j].value_permitted();
                assert(self.descriptors@[j].value_permitted());
            }
        }
        res
    }
}

impl Characteristic {
    /// A static value may only be present when no permission of the
    /// characteristic demands encryption (see
    /// [`Descriptor::value_permitted`]).
    pub open spec fn own_value_permitted(self) -> bool {
        self.value is Some ==> forall|i: int|
            0 <= i < self.permissions@.len() ==> !crate::gatt::descriptor::encryption_required(
                self.permissions@[i],
            )
    }

    /// The characteristic and all its descriptors keep static values away
    /// from encryption-gated permissions.
    pub open spec fn valid(self) -> bool {
        &&& self.own_value_permitted()
        &&& forall|i: int|
            0 <= i < self.descriptors@.len() ==> (#[trigger] self.descriptors@[i]).value_permitted()
    }

    pub fn new(
        uuid: Uuid,
        properties: Vec<CharacteristicProperty>,
        permissions: Vec<AttributePermission>,
        value: Option<Vec<u8>>,
        descriptors: Vec<Descriptor>,
    ) -> (c: Characteristic)
        ensures
            c.uuid == uuid,
            c.properties == properties,
            c.permissions == permissions,
            c.value == value,
            c.descriptors == descriptors,
    {
        Characteristic { uuid, properties, permissions, value, descriptors }
    }

    /// Decides [`Characteristic::own_value_permitted`].
    pub fn check_own_value_permitted(&self) -> (r: bool)
        ensures
            r == self.own_value_permitted(),
    {
        if self.value.is_none() {
            return true;
        }
        let read_enc = has_permission(
            &self.permissions,
            AttributePermission::ReadEncryptionRequired,
        );
        let write_enc = has_permission(
            &self.permissions,
            AttributePermission::WriteEncryptionRequired,
        );
        if read_enc || write_enc {
            false
        } else {
            proof {
                assert forall|i: int|
                    0 <= i < self.permissions@.len() implies !crate::gatt::descriptor::encryption_required(
                    self.permissions@[i],
                ) by {
                    assert(self.permissions@.contains(self.permissions@[i]));
                }
            }
            true
        }
    }

    /// Decides [`Characteristic::valid`], reporting the first offending
    /// attribute as `InvalidAttribute`.
    pub fn validate(&self) -> (r: Result<(), Error>)
        ensures
            r is Ok <==> self.valid(),
            r is Err ==> r matches Err(Error::InvalidAttribute),
    {
        if !self.check_own_value_permitted() {
            return Err(Error::InvalidAttribute);
        }
        let mut i: usize = 0;
        while i < self.descriptors.len()
            invariant
                0 <= i <= self.descriptors@.len(),
                self.own_value_permitted(),
                forall|j: int|
                    0 <= j < i ==> (#[trigger] self.descriptors@[j]).value_permitted(),
            decreases self.descriptors@.len() - i,
        {
            if !self.descriptors[i].check_value_permitted() {
                return Err(Error::InvalidAttribute);
            }
            i += 1;
        }
        Ok(())
    }

    /// The platform-neutral flag words of this characteristic's property and
    /// permission sets.
    pub fn get_properties_and_permissions(&self) -> (flags: (u32, u32))
        ensures
            flags.0 == crate::gatt::properties::properties_flags(self.properties@),
            flags.1 == crate::gatt::properties::permissions_flags(self.permissions@),
    {
        translate(&self.properties, &self.permissions)
    }

    /// The property flag word together with the protection level each
    /// operation demands, for stacks that take the permission side as two
    /// per-operation levels rather than a flag word.
    pub fn extract_props_and_perms(&self) -> (r: (u32, ProtectionLevel, ProtectionLevel))
        ensures
            r.0 == crate::gatt::properties::properties_flags(self.properties@),
            r.1 == write_protection(self.permissions@),
            r.2 == read_protection(self.permissions@),
    {
        let properties = crate::gatt::properties::translate_properties(&self.properties);
        let write_level = if has_permission(
            &self.permissions,
            AttributePermission::WriteEncryptionRequired,
        ) {
            ProtectionLevel::EncryptionRequired
        } else {
            ProtectionLevel::Plain
        };
        let read_level = if has_permission(
            &self.permissions,
            AttributePermission::ReadEncryptionRequired,
        ) {
            ProtectionLevel::EncryptionRequired
        } else {
            ProtectionLevel::Plain
        };
        (properties, write_level, read_level)
    }
}

/// What a stack must enforce on the link before it serves one operation.
#[derive(Debug, Clone, Copy, PartialEq, Eq, Structural)]
pub enum ProtectionLevel {
    Plain,
    EncryptionRequired,
}

/// The protection level of writes under a permission set.
pub open spec fn write_protection(perms: Seq<AttributePermission>) -> ProtectionLevel {
    if perms.contains(AttributePermission::WriteEncryptionRequired) {
        ProtectionLevel::EncryptionRequired
    } else {
        ProtectionLevel::Plain
    }
}

/// The protection level of reads under a permission set.
pub open spec fn read_protection(perms: Seq<AttributePermission>) -> ProtectionLevel {
    if perms.contains(AttributePermission::ReadEncryptionRequired) {
        ProtectionLevel::EncryptionRequired
    } else {
        ProtectionLevel::Plain
    }
}

} // verus!
