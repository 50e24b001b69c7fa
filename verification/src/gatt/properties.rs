use vstd::prelude::*;

verus! {

/// What a characteristic or descriptor supports, as advertised to a central.
#[derive(Debug, Clone, Copy, PartialEq, Eq, Hash, Structural)]
pub enum CharacteristicProperty {
    Broadcast,
    Read,
    WriteWithoutResponse,
    Write,
    Notify,
    Indicate,
    AuthenticatedSignedWrites,
    ExtendedProperties,
    NotifyEncryptionRequired,
    IndicateEncryptionRequired,
}

/// How an attribute's value may be accessed.
#[derive(Debug, Clone, Copy, PartialEq, Eq, Hash, Structural)]
pub enum AttributePermission {
    Readable,
    Writeable,
    ReadEncryptionRequired,
    WriteEncryptionRequired,
}

/// The independent bit each property contributes to the platform-neutral
/// flag word.
pub open spec fn property_flag(p: CharacteristicProperty) -> u32 {
    match p {
        CharacteristicProperty::Broadcast => 0x0001,
        CharacteristicProperty::Read => 0x0002,
        CharacteristicProperty::WriteWithoutResponse => 0x0004,
        CharacteristicProperty::Write => 0x0008,
        CharacteristicProperty::Notify => 0x0010,
        CharacteristicProperty::Indicate => 0x0020,
        CharacteristicProperty::AuthenticatedSignedWrites => 0x0040,
        CharacteristicProperty::ExtendedProperties => 0x0080,
        CharacteristicProperty::NotifyEncryptionRequired => 0x0100,
        CharacteristicProperty::IndicateEncryptionRequired => 0x0200,
    }
}

/// The independent bit each permission contributes.
pub open spec fn permission_flag(p: AttributePermission) -> u32 {
    match p {
        AttributePermission::Readable => 0x0001,
        AttributePermission::Writeable => 0x0002,
        AttributePermission::ReadEncryptionRequired => 0x0004,
        AttributePermission::WriteEncryptionRequired => 0x0008,
    }
}

pub open spec fn prop_term(ps: Seq<CharacteristicProperty>, p: CharacteristicProperty) -> int {
    if ps.contains(p) {
        property_flag(p) as int
    } else {
        0
    }
}

pub open spec fn perm_term(ps: Seq<AttributePermission>, p: AttributePermission) -> int {
    if ps.contains(p) {
        permission_flag(p) as int
    } else {
        0
    }
}

/// The flag word of a property collection. Each property present contributes
/// its own bit once, so the word depends only on which properties occur, not
/// on their order or multiplicity.
pub open spec fn properties_flags(ps: Seq<CharacteristicProperty>) -> int {
    prop_term(ps, CharacteristicProperty::Broadcast)
        + prop_term(ps, CharacteristicProperty::Read)
        + prop_term(ps, CharacteristicProperty::WriteWithoutResponse)
        + prop_term(ps, CharacteristicProperty::Write)
        + prop_term(ps, CharacteristicProperty::Notify)
        + prop_term(ps, CharacteristicProperty::Indicate)
        + prop_term(ps, CharacteristicProperty::AuthenticatedSignedWrites)
        + prop_term(ps, CharacteristicProperty::ExtendedProperties)
        + prop_term(ps, CharacteristicProperty::NotifyEncryptionRequired)
        + prop_term(ps, CharacteristicProperty::IndicateEncryptionRequired)
}

/// The flag word of a permission collection.
pub open spec fn permissions_flags(ps: Seq<AttributePermission>) -> int {
    perm_term(ps, AttributePermission::Readable)
        + perm_term(ps, AttributePermission::Writeable)
        + perm_term(ps, AttributePermission::ReadEncryptionRequired)
        + perm_term(ps, AttributePermission::WriteEncryptionRequired)
}

/// Whether `p` occurs among `ps`.
pub fn has_property(ps: &Vec<CharacteristicProperty>, p: CharacteristicProperty) -> (r: bool)
    ensures
        r == ps@.contains(p),
{
    let mut i: usize = 0;
    while i < ps.len()
        invariant
            0 <= i <= ps@.len(),
            forall|j: int| 0 <= j < i ==> ps@[j] != p,
        decreases ps@.len() - i,
    {
        if ps[i] == p {
            return true;
        }
        i += 1;
    }
    false
}

/// Whether `p` occurs among `ps`.
pub fn has_permission(ps: &Vec<AttributePermission>, p: AttributePermission) -> (r: bool)
    ensures
        r == ps@.contains(p),
{
    let mut i: usize = 0;
    while i < ps.len()
        invariant
            0 <= i <= ps@.len(),
            forall|j: int| 0 <= j < i ==> ps@[j] != p,
        decreases ps@.len() - i,
    {
        if ps[i] == p {
            return true;
        }
        i += 1;
    }
    false
}

/// Translates a property set and a permission set into the pair of
/// platform-neutral flag words handed to a native adapter. The translation is
/// an OR-closure: each element contributes its own bit independently of the
/// others, of order, and of repetition.
pub fn translate(
    properties: &Vec<CharacteristicProperty>,
    permissions: &Vec<AttributePermission>,
) -> (flags: (u32, u32))
    ensures
        flags.0 == properties_flags(properties@),
        flags.1 == permissions_flags(permissions@),
{
    (translate_properties(properties), translate_permissions(permissions))
}

/// The property half of [`translate`].
pub fn translate_properties(properties: &Vec<CharacteristicProperty>) -> (flags: u32)
    ensures
        flags == properties_flags(properties@),
{
    let mut flags: u32 = 0;
    if has_property(properties, CharacteristicProperty::Broadcast) {
        flags += 0x0001;
    }
    if has_property(properties, CharacteristicProperty::Read) {
        flags += 0x0002;
    }
    if has_property(properties, CharacteristicProperty::WriteWithoutResponse) {
        flags += 0x0004;
    }
    if has_property(properties, CharacteristicProperty::Write) {
        flags += 0x0008;
    }
    if has_property(properties, CharacteristicProperty::Notify) {
        flags += 0x0010;
    }
    if has_property(properties, CharacteristicProperty::Indicate) {
        flags += 0x0020;
    }
    if has_property(properties, CharacteristicProperty::AuthenticatedSignedWrites) {
        flags += 0x0040;
    }
    if has_property(properties, CharacteristicProperty::ExtendedProperties) {
        flags += 0x0080;
    }
    if has_property(properties, CharacteristicProperty::NotifyEncryptionRequired) {
        flags += 0x0100;
    }
    if has_property(properties, CharacteristicProperty::IndicateEncryptionRequired) {
        flags += 0x0200;
    }
    flags
}

/// The permission half of [`translate`].
pub fn translate_permissions(permissions: &Vec<AttributePermission>) -> (flags: u32)
    ensures
        flags == permissions_flags(permissions@),
{
    let mut flags: u32 = 0;
    if has_permission(permissions, AttributePermission::Readable) {
        flags += 0x0001;
    }
    if has_permission(permissions, AttributePermission::Writeable) {
        flags += 0x0002;
    }
    if has_permission(permissions, AttributePermission::ReadEncryptionRequired) {
        flags += 0x0004;
    }
    if has_permission(permissions, AttributePermission::WriteEncryptionRequired) {
        flags += 0x0008;
    }
    flags
}

/// Law: the flag translation is order-independent. Two property collections
/// and two permission collections that contain the same elements — in any
/// order, with any repetition — translate to the same flag words.
pub proof fn lemma_translate_order_independent(
    a: Seq<CharacteristicProperty>,
    b: Seq<CharacteristicProperty>,
    c: Seq<AttributePermission>,
    d: Seq<AttributePermission>,
)
    requires
        forall|p: CharacteristicProperty| a.contains(p) <==> b.contains(p),
        forall|p: AttributePermission| c.contains(p) <==> d.contains(p),
    ensures
        properties_flags(a) == properties_flags(b),
        permissions_flags(c) == permissions_flags(d),
{
    assert(a.contains(CharacteristicProperty::Broadcast) <==> b.contains(
        CharacteristicProperty::Broadcast,
    ));
    assert(a.contains(CharacteristicProperty::Read) <==> b.contains(
        CharacteristicProperty::Read,
    ));
    assert(a.contains(CharacteristicProperty::WriteWithoutResponse) <==> b.contains(
        CharacteristicProperty::WriteWithoutResponse,
    ));
    assert(a.contains(CharacteristicProperty::Write) <==> b.contains(
        CharacteristicProperty::Write,
    ));
    assert(a.contains(CharacteristicProperty::Notify) <==> b.contains(
        CharacteristicProperty::Notify,
    ));
    assert(a.contains(CharacteristicProperty::Indicate) <==> b.contains(
        CharacteristicProperty::Indicate,
    ));
    assert(a.contains(CharacteristicProperty::AuthenticatedSignedWrites) <==> b.contains(
        CharacteristicProperty::AuthenticatedSignedWrites,
    ));
    assert(a.contains(CharacteristicProperty::ExtendedProperties) <==> b.contains(
        CharacteristicProperty::ExtendedProperties,
    ));
    assert(a.contains(CharacteristicProperty::NotifyEncryptionRequired) <==> b.contains(
        CharacteristicProperty::NotifyEncryptionRequired,
    ));
    assert(a.contains(CharacteristicProperty::IndicateEncryptionRequired) <==> b.contains(
        CharacteristicProperty::IndicateEncryptionRequired,
    ));
    assert(c.contains(AttributePermission::Readable) <==> d.contains(
        AttributePermission::Readable,
    ));
    assert(c.contains(AttributePermission::Writeable) <==> d.contains(
        AttributePermission::Writeable,
    ));
    assert(c.contains(AttributePermission::ReadEncryptionRequired) <==> d.contains(
        AttributePermission::ReadEncryptionRequired,
    ));
    assert(c.contains(AttributePermission::WriteEncryptionRequired) <==> d.contains(
        AttributePermission::WriteEncryptionRequired,
    ));
}

} // verus!
