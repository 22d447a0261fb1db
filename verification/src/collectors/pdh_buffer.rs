//! Resource and layout bounds for PDH's caller-owned counter array buffer.

use crate::text;
use vstd::prelude::*;

verus! {

/// The most bytes that are reserved for a counter array.
pub const MAX_PDH_ARRAY_BYTES: usize = 4194304;

/// The most items that a counter array may have.
pub const MAX_PDH_ARRAY_ITEMS: usize = 4096;

/// A buffer that holds whole items.
#[derive(Clone, Copy, PartialEq, Eq, Structural, Debug)]
pub struct PdhBufferLayout {
    pub slots: usize,
    pub capacity_bytes: usize,
}

/// Why a counter array is refused.
#[derive(Clone, Copy, PartialEq, Eq, Structural, Debug)]
pub enum PdhBufferFault {
    ZeroSizedItem,
    NoBytes,
    TooManyBytes { required: usize },
    TooManyItems { items: usize },
    ItemsOverflow,
    TooSmall { required: usize, items: usize },
    RoundingOverflow,
    TooLargeAligned { capacity: usize },
    CapacityOverLimit,
    OverCapacity { used: usize, capacity: usize },
    UsedTooSmall { used: usize, items: usize },
}

impl PdhBufferFault {
    /// The words in which the fault is reported.
    pub open spec fn text(self) -> Seq<char> {
        match self {
            PdhBufferFault::ZeroSizedItem => "PDH item type has zero size"@,
            PdhBufferFault::NoBytes => "PDH returned a zero-sized array buffer"@,
            PdhBufferFault::TooManyBytes { required } => "PDH requested "@ + text::decimal(
                required as nat,
            ) + " array bytes, exceeding the 4194304 byte limit"@,
            PdhBufferFault::TooManyItems { items } => "PDH returned "@ + text::decimal(
                items as nat,
            ) + " array items, exceeding the 4096 item limit"@,
            PdhBufferFault::ItemsOverflow => "PDH item array size overflowed"@,
            PdhBufferFault::RoundingOverflow => "PDH buffer rounding overflowed"@,
            PdhBufferFault::TooSmall { required, items } => "PDH byte count "@ + text::decimal(
                required as nat,
            ) + " cannot contain "@ + text::decimal(items as nat) + " array items"@,
            PdhBufferFault::TooLargeAligned { capacity } => "PDH aligned buffer requires "@
                + text::decimal(capacity as nat) + " bytes, exceeding the 4194304 byte limit"@,
            PdhBufferFault::CapacityOverLimit =>
                "PDH buffer capacity exceeds the configured resource limit"@,
            PdhBufferFault::OverCapacity { used, capacity } => "PDH reported "@ + text::decimal(
                used as nat,
            ) + " used bytes for a "@ + text::decimal(capacity as nat) + " byte buffer"@,
            PdhBufferFault::UsedTooSmall { used, items } => "PDH used byte count "@ + text::decimal(
                used as nat,
            ) + " cannot contain "@ + text::decimal(items as nat) + " array items"@,
        }
    }

    /// The words in which the fault is reported.
    pub fn message(&self) -> (r: String)
        ensures
            r@ == self.text(),
    {
        match self {
            PdhBufferFault::ZeroSizedItem => text::owned("PDH item type has zero size"),
            PdhBufferFault::NoBytes => text::owned("PDH returned a zero-sized array buffer"),
            PdhBufferFault::TooManyBytes { required } => text::cat3(
                "PDH requested ",
                text::decimal_text(*required as u64).as_str(),
                " array bytes, exceeding the 4194304 byte limit",
            ),
            PdhBufferFault::TooManyItems { items } => text::cat3(
                "PDH returned ",
                text::decimal_text(*items as u64).as_str(),
                " array items, exceeding the 4096 item limit",
            ),
            PdhBufferFault::ItemsOverflow => text::owned("PDH item array size overflowed"),
            PdhBufferFault::RoundingOverflow => text::owned("PDH buffer rounding overflowed"),
            PdhBufferFault::TooSmall { required, items } => text::cat5(
                "PDH byte count ",
                text::decimal_text(*required as u64).as_str(),
                " cannot contain ",
                text::decimal_text(*items as u64).as_str(),
                " array items",
            ),
            PdhBufferFault::TooLargeAligned { capacity } => text::cat3(
                "PDH aligned buffer requires ",
                text::decimal_text(*capacity as u64).as_str(),
                " bytes, exceeding the 4194304 byte limit",
            ),
            PdhBufferFault::CapacityOverLimit => text::owned(
                "PDH buffer capacity exceeds the configured resource limit",
            ),
            PdhBufferFault::OverCapacity { used, capacity } => text::cat5(
                "PDH reported ",
                text::decimal_text(*used as u64).as_str(),
                " used bytes for a ",
                text::decimal_text(*capacity as u64).as_str(),
                " byte buffer",
            ),
            PdhBufferFault::UsedTooSmall { used, items } => text::cat5(
                "PDH used byte count ",
                text::decimal_text(*used as u64).as_str(),
                " cannot contain ",
                text::decimal_text(*items as u64).as_str(),
                " array items",
            ),
        }
    }
}

/// How many whole items hold this many bytes.
pub open spec fn slots_for(bytes: int, item_size: int) -> int {
    (bytes + item_size - 1) / item_size
}

/// The buffer for a counter array of this size, or why it is refused.
pub open spec fn planned(required_bytes: u32, item_count: u32, item_size: usize) -> Result<
    PdhBufferLayout,
    PdhBufferFault,
> {
    let slots = slots_for(required_bytes as int, item_size as int);
    if item_size == 0 {
        Err(PdhBufferFault::ZeroSizedItem)
    } else if required_bytes == 0 {
        Err(PdhBufferFault::NoBytes)
    } else if required_bytes > MAX_PDH_ARRAY_BYTES {
        Err(PdhBufferFault::TooManyBytes { required: required_bytes as usize })
    } else if item_count > MAX_PDH_ARRAY_ITEMS {
        Err(PdhBufferFault::TooManyItems { items: item_count as usize })
    } else if item_count * item_size > usize::MAX {
        Err(PdhBufferFault::ItemsOverflow)
    } else if item_count * item_size > required_bytes {
        Err(
            PdhBufferFault::TooSmall {
                required: required_bytes as usize,
                items: item_count as usize,
            },
        )
    } else if required_bytes + item_size - 1 > usize::MAX {
        Err(PdhBufferFault::RoundingOverflow)
    } else if slots * item_size > MAX_PDH_ARRAY_BYTES {
        Err(PdhBufferFault::TooLargeAligned { capacity: (slots * item_size) as usize })
    } else {
        Ok(PdhBufferLayout { slots: slots as usize, capacity_bytes: (slots * item_size) as usize })
    }
}

proof fn lemma_slots(bytes: int, item_size: int)
    requires
        0 < bytes,
        0 < item_size,
    ensures
        bytes <= slots_for(bytes, item_size) * item_size < bytes + item_size,
        0 < slots_for(bytes, item_size) <= bytes,
{
    let n = bytes + item_size - 1;
    vstd::arithmetic::div_mod::lemma_fundamental_div_mod(n, item_size);
    vstd::arithmetic::div_mod::lemma_mod_bound(n, item_size);
    let slots = slots_for(bytes, item_size);
    assert(item_size * slots == slots * item_size) by (nonlinear_arith);
    assert(0 < slots) by (nonlinear_arith)
        requires
            slots * item_size >= bytes,
            0 < bytes,
            0 < item_size,
    ;
    assert(slots <= bytes) by (nonlinear_arith)
        requires
            slots * item_size < bytes + item_size,
            0 < bytes,
            0 < item_size,
            0 < slots,
    ;
}

/// The buffer for a counter array of this size, or why it is refused.
pub fn plan_pdh_buffer(required_bytes: u32, item_count: u32, item_size: usize) -> (r: Result<
    PdhBufferLayout,
    PdhBufferFault,
>)
    ensures
        r == planned(required_bytes, item_count, item_size),
{
    if item_size == 0 {
        return Err(PdhBufferFault::ZeroSizedItem);
    }
    if required_bytes == 0 {
        return Err(PdhBufferFault::NoBytes);
    }
    let required: usize = required_bytes as usize;
    if required > MAX_PDH_ARRAY_BYTES {
        return Err(PdhBufferFault::TooManyBytes { required });
    }
    let items: usize = item_count as usize;
    if items > MAX_PDH_ARRAY_ITEMS {
        return Err(PdhBufferFault::TooManyItems { items });
    }
    let wide_size: u128 = item_size as u128;
    assert(items * item_size <= 4096 * usize::MAX) by (nonlinear_arith)
        requires
            items <= 4096,
            item_size <= usize::MAX,
    ;
    let minimum: u128 = (items as u128) * wide_size;
    if minimum > usize::MAX as u128 {
        return Err(PdhBufferFault::ItemsOverflow);
    }
    if minimum > required as u128 {
        return Err(PdhBufferFault::TooSmall { required, items });
    }
    if (required as u128) + wide_size - 1 > usize::MAX as u128 {
        return Err(PdhBufferFault::RoundingOverflow);
    }
    proof {
        lemma_slots(required as int, item_size as int);
    }
    let slots: u128 = ((required as u128) + wide_size - 1) / wide_size;
    let capacity: u128 = slots * wide_size;
    if capacity > MAX_PDH_ARRAY_BYTES as u128 {
        return Err(PdhBufferFault::TooLargeAligned { capacity: capacity as usize });
    }
    Ok(PdhBufferLayout { slots: slots as usize, capacity_bytes: capacity as usize })
}

/// How many items a buffer that was filled holds, or why what it is said to hold is refused.
pub open spec fn checked_items(
    capacity_bytes: usize,
    used_bytes: u32,
    item_count: u32,
    item_size: usize,
) -> Result<usize, PdhBufferFault> {
    if item_size == 0 {
        Err(PdhBufferFault::ZeroSizedItem)
    } else if capacity_bytes > MAX_PDH_ARRAY_BYTES {
        Err(PdhBufferFault::CapacityOverLimit)
    } else if used_bytes > capacity_bytes {
        Err(
            PdhBufferFault::OverCapacity {
                used: used_bytes as usize,
                capacity: capacity_bytes,
            },
        )
    } else if item_count > MAX_PDH_ARRAY_ITEMS {
        Err(PdhBufferFault::TooManyItems { items: item_count as usize })
    } else if item_count * item_size > usize::MAX {
        Err(PdhBufferFault::ItemsOverflow)
    } else if item_count * item_size > used_bytes {
        Err(PdhBufferFault::UsedTooSmall { used: used_bytes as usize, items: item_count as usize })
    } else {
        Ok(item_count as usize)
    }
}

/// How many items a buffer that was filled holds, or why what it is said to hold is refused.
pub fn validate_pdh_result(
    capacity_bytes: usize,
    used_bytes: u32,
    item_count: u32,
    item_size: usize,
) -> (r: Result<usize, PdhBufferFault>)
    ensures
        r == checked_items(capacity_bytes, used_bytes, item_count, item_size),
{
    if item_size == 0 {
        return Err(PdhBufferFault::ZeroSizedItem);
    }
    if capacity_bytes > MAX_PDH_ARRAY_BYTES {
        return Err(PdhBufferFault::CapacityOverLimit);
    }
    let used: usize = used_bytes as usize;
    if used > capacity_bytes {
        return Err(PdhBufferFault::OverCapacity { used, capacity: capacity_bytes });
    }
    let items: usize = item_count as usize;
    if items > MAX_PDH_ARRAY_ITEMS {
        return Err(PdhBufferFault::TooManyItems { items });
    }
    assert(items * item_size <= 4096 * usize::MAX) by (nonlinear_arith)
        requires
            items <= 4096,
            item_size <= usize::MAX,
    ;
    let minimum: u128 = (items as u128) * (item_size as u128);
    if minimum > usize::MAX as u128 {
        return Err(PdhBufferFault::ItemsOverflow);
    }
    if minimum > used as u128 {
        return Err(PdhBufferFault::UsedTooSmall { used, items });
    }
    Ok(items)
}

/// A buffer that is planned holds the bytes that were asked for and all of the items, in whole
/// items, within the limit.
pub proof fn a_planned_buffer_is_enough(required_bytes: u32, item_count: u32, item_size: usize)
    ensures
        planned(required_bytes, item_count, item_size) matches Ok(layout) ==> {
            &&& layout.capacity_bytes == layout.slots * item_size
            &&& required_bytes <= layout.capacity_bytes <= MAX_PDH_ARRAY_BYTES
            &&& item_count * item_size <= layout.capacity_bytes
            &&& layout.capacity_bytes < required_bytes + item_size
        },
{
    if planned(required_bytes, item_count, item_size) is Ok {
        lemma_slots(required_bytes as int, item_size as int);
    }
}

/// Items that are accepted lie in the bytes that were used, and those in the buffer.
pub proof fn accepted_items_lie_in_the_buffer(
    capacity_bytes: usize,
    used_bytes: u32,
    item_count: u32,
    item_size: usize,
)
    ensures
        checked_items(capacity_bytes, used_bytes, item_count, item_size) matches Ok(items) ==> items
            * item_size <= used_bytes <= capacity_bytes,
{
}

/// A buffer is planned exactly where its size and its items are within their limits and fit each
/// other.
pub proof fn which_buffers_are_planned(required_bytes: u32, item_count: u32, item_size: usize)
    ensures
        planned(required_bytes, item_count, item_size) is Ok <==> {
            &&& item_size > 0
            &&& 0 < required_bytes <= 4_194_304
            &&& item_count <= 4096
            &&& item_count * item_size <= required_bytes
            &&& required_bytes + item_size - 1 <= usize::MAX
            &&& slots_for(required_bytes as int, item_size as int) * item_size <= 4_194_304
        },
        item_size == 0 ==> planned(required_bytes, item_count, item_size) == Err::<
            PdhBufferLayout,
            PdhBufferFault,
        >(PdhBufferFault::ZeroSizedItem),
{
}

/// Items are accepted exactly where they lie in the bytes that were used, and those in the buffer;
/// it is then their own number that is accepted.
pub proof fn which_items_are_accepted(
    capacity_bytes: usize,
    used_bytes: u32,
    item_count: u32,
    item_size: usize,
)
    ensures
        checked_items(capacity_bytes, used_bytes, item_count, item_size) is Ok <==> {
            &&& item_size > 0
            &&& capacity_bytes <= 4_194_304
            &&& used_bytes <= capacity_bytes
            &&& item_count <= 4096
            &&& item_count * item_size <= used_bytes
        },
        checked_items(capacity_bytes, used_bytes, item_count, item_size) matches Ok(items)
            ==> items == item_count,
{
}

} // verus!
