//! The keys under which Move modules and resources are stored in a Jellyfish Merkle tree, and
//! the updates that a change set makes to the tree.
//!
//! A module's key is its serialized id behind a module prefix; a resource's key is the
//! serialized account address and the serialized type tag behind a resource prefix. A
//! change set publishes or modifies a value under a key, or deletes it.
use vstd::prelude::*;
use vstd::utf8::{encode_utf8, is_ascii_chars, is_ascii_chars_encode_utf8};

verus! {

/// The prefix of module keys.
pub const MODULE_PREFIX: &'static str = "MODULE::";
/// The prefix of resource keys.
pub const RESOURCE_PREFIX: &'static str = "RESOURCE::";

/// The key of the module with the given serialized id.
pub open spec fn spec_module_key(serialized_id: Seq<u8>) -> Seq<u8> {
    encode_utf8(MODULE_PREFIX@) + serialized_id
}

/// The key of the resource with the given serialized account address and type tag.
pub open spec fn spec_resource_key(serialized_address: Seq<u8>, serialized_tag: Seq<u8>) -> Seq<u8> {
    encode_utf8(RESOURCE_PREFIX@) + serialized_address + serialized_tag
}

/// Module keys and resource keys never meet, and two module keys, or two resource keys of
/// serialized addresses of one length, are equal only for equal serializations.
pub proof fn lemma_keys_distinct(id: Seq<u8>, other_id: Seq<u8>, address: Seq<u8>, tag: Seq<u8>, other_address: Seq<u8>, other_tag: Seq<u8>)
    ensures
        spec_module_key(id) != spec_resource_key(address, tag),
        spec_module_key(id) == spec_module_key(other_id) ==> id == other_id,
        address.len() == other_address.len() && spec_resource_key(address, tag) == spec_resource_key(other_address, other_tag)
            ==> address == other_address && tag == other_tag,
{
    reveal_strlit("MODULE::");
    reveal_strlit("RESOURCE::");
    let mc = MODULE_PREFIX@;
    let rc = RESOURCE_PREFIX@;
    assert(is_ascii_chars(mc));
    assert(is_ascii_chars(rc));
    is_ascii_chars_encode_utf8(mc);
    is_ascii_chars_encode_utf8(rc);
    let m = encode_utf8(mc);
    let r = encode_utf8(rc);
    assert(m[0] == mc[0] as u8);
    assert(r[0] == rc[0] as u8);
    assert(spec_module_key(id)[0] == m[0]);
    assert(spec_resource_key(address, tag)[0] == r[0]);
    if spec_module_key(id) == spec_module_key(other_id) {
        assert(id =~= spec_module_key(id).subrange(m.len() as int, spec_module_key(id).len() as int));
        assert(other_id =~= spec_module_key(other_id).subrange(m.len() as int, spec_module_key(other_id).len() as int));
    }
    if address.len() == other_address.len() && spec_resource_key(address, tag) == spec_resource_key(other_address, other_tag) {
        let k = spec_resource_key(address, tag);
        assert(address =~= k.subrange(r.len() as int, (r.len() + address.len()) as int));
        assert(other_address =~= k.subrange(r.len() as int, (r.len() + address.len()) as int));
        assert(tag =~= k.subrange((r.len() + address.len()) as int, k.len() as int));
        assert(other_tag =~= k.subrange((r.len() + address.len()) as int, k.len() as int));
    }
}

/// Appends bytes to a buffer.
fn append_bytes(buffer: &mut Vec<u8>, bytes: &[u8])
    ensures
        final(buffer)@ == old(buffer)@ + bytes@,
{
    buffer.extend_from_slice(bytes);
    assert(buffer@ =~= old(buffer)@ + bytes@);
}

/// The key of the module with the given serialized id.
pub fn module_key(serialized_id: &[u8]) -> (key: Vec<u8>)
    ensures
        key@ == spec_module_key(serialized_id@),
{
    let mut key: Vec<u8> = Vec::new();
    append_bytes(&mut key, MODULE_PREFIX.as_bytes());
    append_bytes(&mut key, serialized_id);
    assert(key@ =~= spec_module_key(serialized_id@));
    key
}

/// The key of the resource with the given serialized account address and type tag.
pub fn resource_key(serialized_address: &[u8], serialized_tag: &[u8]) -> (key: Vec<u8>)
    ensures
        key@ == spec_resource_key(serialized_address@, serialized_tag@),
{
    let mut key: Vec<u8> = Vec::new();
    append_bytes(&mut key, RESOURCE_PREFIX.as_bytes());
    append_bytes(&mut key, serialized_address);
    append_bytes(&mut key, serialized_tag);
    assert(key@ =~= spec_resource_key(serialized_address@, serialized_tag@));
    key
}

/// What a change set does to a value.
#[derive(Debug, Clone, PartialEq, Eq)]
pub enum Op {
    New(Vec<u8>),
    Modify(Vec<u8>),
    Delete,
}

/// The value that an operation leaves: the new or modified value, or none once deleted.
pub open spec fn op_value(op: Op) -> Option<Seq<u8>> {
    match op {
        Op::New(v) => Some(v@),
        Op::Modify(v) => Some(v@),
        Op::Delete => None,
    }
}

/// The view of a value that may be absent.
pub open spec fn value_view(v: Option<Vec<u8>>) -> Option<Seq<u8>> {
    match v {
        Some(b) => Some(b@),
        None => None,
    }
}

/// A change to a module, by its serialized id.
#[derive(Debug, Clone, PartialEq, Eq)]
pub struct ModuleChange {
    pub serialized_id: Vec<u8>,
    pub op: Op,
}

/// A change to a resource, by its serialized account address and type tag.
#[derive(Debug, Clone, PartialEq, Eq)]
pub struct ResourceChange {
    pub serialized_address: Vec<u8>,
    pub serialized_tag: Vec<u8>,
    pub op: Op,
}

/// A copy of the bytes.
fn copy_bytes(bytes: &Vec<u8>) -> (c: Vec<u8>)
    ensures
        c@ == bytes@,
{
    let mut c: Vec<u8> = Vec::new();
    append_bytes(&mut c, bytes.as_slice());
    c
}

/// The value that an operation leaves.
pub fn op_ok(op: &Op) -> (v: Option<Vec<u8>>)
    ensures
        value_view(v) == op_value(*op),
{
    match op {
        Op::New(v) => Some(copy_bytes(v)),
        Op::Modify(v) => Some(copy_bytes(v)),
        Op::Delete => None,
    }
}

/// The updates that a change set makes to the tree, keys and the values they are left with:
/// the modules' in order, then the resources' in order.
pub fn change_set_updates(modules: Vec<ModuleChange>, resources: Vec<ResourceChange>) -> (updates: Vec<(Vec<u8>, Option<Vec<u8>>)>)
    ensures
        updates@.len() == modules@.len() + resources@.len(),
        forall|i: int| 0 <= i < modules@.len() ==> {
            &&& (#[trigger] updates@[i]).0@ == spec_module_key(modules@[i].serialized_id@)
            &&& value_view(updates@[i].1) == op_value(modules@[i].op)
        },
        forall|j: int| 0 <= j < resources@.len() ==> {
            &&& (#[trigger] updates@[modules@.len() + j]).0@ == spec_resource_key(resources@[j].serialized_address@, resources@[j].serialized_tag@)
            &&& value_view(updates@[modules@.len() + j].1) == op_value(resources@[j].op)
        },
{
    let mut updates: Vec<(Vec<u8>, Option<Vec<u8>>)> = Vec::new();
    let mut i: usize = 0;
    while i < modules.len()
        invariant
            0 <= i <= modules@.len(),
            updates@.len() == i,
            forall|k: int| 0 <= k < i ==> {
                &&& (#[trigger] updates@[k]).0@ == spec_module_key(modules@[k].serialized_id@)
                &&& value_view(updates@[k].1) == op_value(modules@[k].op)
            },
        decreases modules@.len() - i,
    {
        let change = &modules[i];
        let key = module_key(change.serialized_id.as_slice());
        let value = op_ok(&change.op);
        updates.push((key, value));
        i = i + 1;
    }
    let mut j: usize = 0;
    while j < resources.len()
        invariant
            0 <= j <= resources@.len(),
            updates@.len() == modules@.len() + j,
            forall|k: int| 0 <= k < modules@.len() ==> {
                &&& (#[trigger] updates@[k]).0@ == spec_module_key(modules@[k].serialized_id@)
                &&& value_view(updates@[k].1) == op_value(modules@[k].op)
            },
            forall|k: int| 0 <= k < j ==> {
                &&& (#[trigger] updates@[modules@.len() + k]).0@ == spec_resource_key(resources@[k].serialized_address@, resources@[k].serialized_tag@)
                &&& value_view(updates@[modules@.len() + k].1) == op_value(resources@[k].op)
            },
        decreases resources@.len() - j,
    {
        let change = &resources[j];
        let key = resource_key(change.serialized_address.as_slice(), change.serialized_tag.as_slice());
        let value = op_ok(&change.op);
        updates.push((key, value));
        j = j + 1;
    }
    updates
}

/// The `i`-th nibble of a key, the high nibble of each byte first.
pub open spec fn nibble_at(key: Seq<u8>, i: int) -> u8 {
    if i % 2 == 0 { key[i / 2] >> 4u8 } else { key[i / 2] & 0x0fu8 }
}

/// What setting the high or the low nibble of a byte does to both nibbles.
proof fn lemma_set_nibble(b: u8, x: u8)
    requires
        x < 16,
    ensures
        ((b & 0x0fu8) | (x << 4u8)) >> 4u8 == x,
        ((b & 0x0fu8) | (x << 4u8)) & 0x0fu8 == b & 0x0fu8,
        ((b & 0xf0u8) | x) >> 4u8 == b >> 4u8,
        ((b & 0xf0u8) | x) & 0x0fu8 == x,
{
    assert(((b & 0x0fu8) | (x << 4u8)) >> 4u8 == x) by (bit_vector)
        requires x < 16;
    assert(((b & 0x0fu8) | (x << 4u8)) & 0x0fu8 == b & 0x0fu8) by (bit_vector)
        requires x < 16;
    assert(((b & 0xf0u8) | x) >> 4u8 == b >> 4u8) by (bit_vector)
        requires x < 16;
    assert(((b & 0xf0u8) | x) & 0x0fu8 == x) by (bit_vector)
        requires x < 16;
}

/// The key with its `n`-th nibble set to `nibble` and every other nibble kept.
pub fn update_nibble(key: [u8; 32], n: usize, nibble: u8) -> (r: [u8; 32])
    requires
        n < 64,
        nibble < 16,
    ensures
        forall|i: int| 0 <= i < 64 ==> #[trigger] nibble_at(r@, i) == if i == n { nibble } else { nibble_at(key@, i) },
{
    let mut k = key;
    let b = k[n / 2];
    let updated = if n % 2 == 0 { (b & 0x0f) | (nibble << 4) } else { (b & 0xf0) | nibble };
    k[n / 2] = updated;
    proof {
        lemma_set_nibble(b, nibble);
        assert forall|i: int| 0 <= i < 64 implies #[trigger] nibble_at(k@, i) == if i == n { nibble } else { nibble_at(key@, i) } by {
            if i / 2 != n / 2 {
                assert(k@[i / 2] == key@[i / 2]);
            }
        }
    }
    k
}

} // verus!
