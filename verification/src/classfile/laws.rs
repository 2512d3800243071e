//! What holds of every constant pool that the parser builds.

use super::constant::ConstantView;
use super::grammar::class_file_of;
use super::grammar::constant_pool_at;
use super::grammar::constants_from;
use super::grammar::cp_info_at;
use super::grammar::slots_of;
use super::grammar::u16_at;
use super::error::ErrorView;
use super::grammar::invalid_magic_message;
use super::grammar::MAGIC;
use super::ClassFileView;
use crate::bytes::be_u16_at;
use crate::bytes::be_u32_at;
use vstd::prelude::*;

verus! {

/// The first slot holds nothing, and neither does the slot after each
/// `Long`; no other slot is left unused.
pub open spec fn slots_well_formed(pool: Seq<ConstantView>) -> bool {
    &&& pool.len() >= 1
    &&& pool[0] is Unusable
    &&& forall|i: int|
        0 <= i < pool.len() && (#[trigger] pool[i]) is Long ==> i + 1 < pool.len() && pool[i
            + 1] is Unusable
    &&& forall|i: int|
        1 <= i < pool.len() && (#[trigger] pool[i]) is Unusable ==> pool[i - 1] is Long
}

/// An entry read from the bytes is never a slot that holds nothing.
pub proof fn lemma_entry_is_used(b: Seq<u8>, at: int)
    requires
        cp_info_at(b, at) is Ok,
    ensures
        !(cp_info_at(b, at)->Ok_0.0 is Unusable),
{
}

/// Filling further slots keeps the slots well formed and fills exactly as
/// many slots as were left to fill.
pub proof fn lemma_constants_from_slots(
    b: Seq<u8>,
    at: int,
    remaining: nat,
    acc: Seq<ConstantView>,
)
    requires
        slots_well_formed(acc),
        constants_from(b, at, remaining, acc) is Ok,
    ensures
        slots_well_formed(constants_from(b, at, remaining, acc)->Ok_0.0),
        constants_from(b, at, remaining, acc)->Ok_0.0.len() == acc.len() + remaining,
    decreases remaining,
{
    if remaining > 0 {
        let (constant, next) = cp_info_at(b, at)->Ok_0;
        lemma_entry_is_used(b, at);
        let last = acc.len() as int;
        assert(!(acc[last - 1] is Long));
        if slots_of(constant) == 2 {
            let grown = acc.push(constant).push(ConstantView::Unusable);
            assert forall|i: int| 0 <= i < grown.len() && (#[trigger] grown[i]) is Long implies i
                + 1 < grown.len() && grown[i + 1] is Unusable by {
                if i < last {
                    assert(acc[i] is Long);
                }
            }
            assert forall|i: int| 1 <= i < grown.len() && (#[trigger] grown[i])
                is Unusable implies grown[i - 1] is Long by {
                if i < last {
                    assert(acc[i] is Unusable);
                }
            }
            lemma_constants_from_slots(b, next, (remaining - 2) as nat, grown);
        } else {
            let grown = acc.push(constant);
            assert forall|i: int| 0 <= i < grown.len() && (#[trigger] grown[i]) is Long implies i
                + 1 < grown.len() && grown[i + 1] is Unusable by {
                if i < last {
                    assert(acc[i] is Long);
                }
            }
            assert forall|i: int| 1 <= i < grown.len() && (#[trigger] grown[i])
                is Unusable implies grown[i - 1] is Long by {
                if i < last {
                    assert(acc[i] is Unusable);
                }
            }
            lemma_constants_from_slots(b, next, (remaining - 1) as nat, grown);
        }
    }
}

/// A constant pool that parses has as many slots as its count says, the
/// reserved first slot included, and each `Long` in it is followed by a slot
/// that holds nothing.
pub proof fn lemma_pool_slots(b: Seq<u8>, at: int)
    requires
        constant_pool_at(b, at) is Ok,
    ensures
        slots_well_formed(constant_pool_at(b, at)->Ok_0.0),
        constant_pool_at(b, at)->Ok_0.0.len() == be_u16_at(b, at),
{
    let (count, next) = u16_at(b, at)->Ok_0;
    lemma_constants_from_slots(b, next, (count - 1) as nat, seq![ConstantView::Unusable]);
}

/// The constant pool of every classfile that parses is well formed in its
/// slots, and has as many of them as the count at offset 8 says.
pub proof fn lemma_parsed_pool_slots(b: Seq<u8>)
    requires
        class_file_of(b) is Ok,
    ensures
        slots_well_formed(class_file_of(b)->Ok_0.constant_pool),
        class_file_of(b)->Ok_0.constant_pool.len() == be_u16_at(b, 8),
{
    lemma_pool_slots(b, 8);
}

/// Bytes that do not start with the magic identifier are no classfile: the
/// error names the number that stands in its place, in hexadecimal, at the
/// offset after it.
pub proof fn lemma_magic_guard(b: Seq<u8>)
    requires
        b.len() >= 4,
        be_u32_at(b, 0) != MAGIC,
    ensures
        class_file_of(b) == Err::<ClassFileView, ErrorView>(
            ErrorView::ReadError(invalid_magic_message(be_u32_at(b, 0)), 4),
        ),
{
}

} // verus!
