//! The byte layout of the runtime's native interface table.
//!
//! The table is a C struct of function pointers. Every slot the runtime
//! declares is kept here in order, bound or not, so that the offset of each
//! later slot stays right.

use vstd::prelude::*;
use vstd::layout::size_of;

verus! {

/// What a slot of the table is to this library.
#[derive(Clone, Copy, Debug, PartialEq, Eq, Structural)]
pub enum SlotKind {
    /// Reserved by the runtime; never called.
    Reserved,
    /// A capability the library has not bound; never called.
    Unbound,
    /// A capability the library calls.
    Bound,
}

/// One slot of the table.
#[derive(Clone, Copy, Debug)]
pub struct Slot {
    pub name: &'static str,
    pub kind: SlotKind,
    /// Size in bytes.
    pub size: usize,
}

/// Sum of the sizes of the first `i` slots.
pub open spec fn prefix_size(sizes: Seq<usize>, i: int) -> int
    decreases i,
{
    if i <= 0 {
        0
    } else {
        prefix_size(sizes, i - 1) + sizes[i - 1]
    }
}

/// Number of slots in the runtime's table at the version bound here.
pub const SLOT_COUNT: usize = 37;

/// Index of the version query slot.
pub const GET_VERSION_SLOT: usize = 4;

/// Index of the class-of-object slot.
pub const GET_OBJECT_CLASS_SLOT: usize = 31;

/// Index of the method lookup slot.
pub const GET_METHOD_ID_SLOT: usize = 33;

/// Index of the object-returning call slot that takes an argument array.
pub const CALL_OBJECT_METHOD_A_SLOT: usize = 36;

/// Names of the runtime's slots, in table order.
pub open spec fn table_slot_names() -> Seq<&'static str> {
    seq![
        "reserved0",
        "reserved1",
        "reserved2",
        "reserved3",
        "GetVersion",
        "DefineClass",
        "FindClass",
        "FromReflectedMethod",
        "FromReflectedField",
        "ToReflectedMethod",
        "GetSuperclass",
        "IsAssignableFrom",
        "ToReflectedField",
        "Throw",
        "ThrowNew",
        "ExceptionOccurred",
        "ExceptionDescribe",
        "ExceptionClear",
        "FatalError",
        "PushLocalFrame",
        "PopLocalFrame",
        "NewGlobalRef",
        "DeleteGlobalRef",
        "DeleteLocalRef",
        "IsSameObject",
        "NewLocalRef",
        "EnsureLocalCapacity",
        "AllocObject",
        "NewObject",
        "NewObjectV",
        "NewObjectA",
        "GetObjectClass",
        "IsInstanceOf",
        "GetMethodId",
        "CallObjectMethod",
        "CallObjectMethodV",
        "CallObjectMethodA",
    ]
}

/// The kind of each slot of the runtime's table.
pub open spec fn table_slot_kind(i: int) -> SlotKind {
    if i < 4 {
        SlotKind::Reserved
    } else if i == GET_VERSION_SLOT || i == GET_OBJECT_CLASS_SLOT || i == GET_METHOD_ID_SLOT
        || i == CALL_OBJECT_METHOD_A_SLOT {
        SlotKind::Bound
    } else {
        SlotKind::Unbound
    }
}

/// An ordered sequence of slots with the offset of each.
pub struct JNINativeInterface {
    slots: Vec<Slot>,
    offsets: Vec<usize>,
    size: usize,
}

impl JNINativeInterface {
    /// Sizes of the slots, in order.
    pub closed spec fn slot_sizes(&self) -> Seq<usize> {
        self.slots@.map_values(|s: Slot| s.size)
    }

    /// Names of the slots, in order.
    pub closed spec fn slot_names(&self) -> Seq<&'static str> {
        self.slots@.map_values(|s: Slot| s.name)
    }

    /// Kinds of the slots, in order.
    pub closed spec fn slot_kinds(&self) -> Seq<SlotKind> {
        self.slots@.map_values(|s: Slot| s.kind)
    }

    pub closed spec fn wf(&self) -> bool {
        &&& self.offsets@.len() == self.slots@.len()
        &&& forall|i: int|
            0 <= i < self.offsets@.len() ==> #[trigger] self.offsets@[i] == prefix_size(
                self.slot_sizes(),
                i,
            )
        &&& self.size == prefix_size(self.slot_sizes(), self.slots@.len() as int)
    }

    /// This is the runtime's table: `SLOT_COUNT` word-sized slots of the
    /// kinds `table_slot_kind` gives.
    pub open spec fn is_runtime_table(&self) -> bool {
        &&& self.wf()
        &&& self.slot_sizes().len() == SLOT_COUNT
        &&& forall|i: int|
            0 <= i < SLOT_COUNT ==> #[trigger] self.slot_sizes()[i] == size_of::<usize>()
        &&& forall|i: int| 0 <= i < SLOT_COUNT ==> #[trigger] self.slot_kinds()[i] == table_slot_kind(i)
        &&& self.slot_names() == table_slot_names()
    }

    /// A layout with no slot.
    pub fn new() -> (r: Self)
        ensures
            r.wf(),
            r.slot_sizes() == Seq::<usize>::empty(),
            r.slot_kinds() == Seq::<SlotKind>::empty(),
            r.slot_names() == Seq::<&'static str>::empty(),
    {
        let r = JNINativeInterface { slots: Vec::new(), offsets: Vec::new(), size: 0 };
        assert(r.slot_sizes() =~= Seq::<usize>::empty());
        assert(r.slot_kinds() =~= Seq::<SlotKind>::empty());
        assert(r.slot_names() =~= Seq::<&'static str>::empty());
        r
    }

    /// Appends `slot` after the last slot.
    pub fn push(&mut self, slot: Slot)
        requires
            old(self).wf(),
            prefix_size(old(self).slot_sizes(), old(self).slot_sizes().len() as int) + slot.size
                <= usize::MAX,
        ensures
            final(self).wf(),
            final(self).slot_sizes() == old(self).slot_sizes().push(slot.size),
            final(self).slot_kinds() == old(self).slot_kinds().push(slot.kind),
            final(self).slot_names() == old(self).slot_names().push(slot.name),
    {
        let ghost old_sizes = self.slot_sizes();
        let offset = self.size;
        self.slots.push(slot);
        self.offsets.push(offset);
        self.size = offset + slot.size;
        assert(self.slot_sizes() =~= old_sizes.push(slot.size));
        assert(self.slot_kinds() =~= old(self).slot_kinds().push(slot.kind));
        assert(self.slot_names() =~= old(self).slot_names().push(slot.name));
        proof {
            assert forall|i: int| 0 <= i < self.offsets@.len() implies #[trigger] self.offsets@[i]
                == prefix_size(self.slot_sizes(), i) by {
                lemma_prefix_size_push(old_sizes, slot.size, i);
            }
        }
        proof {
            lemma_prefix_size_push(old_sizes, slot.size, old_sizes.len() as int);
        }
    }

    /// Number of slots.
    pub fn len(&self) -> (r: usize)
        ensures
            r == self.slot_sizes().len(),
    {
        self.slots.len()
    }

    /// Total size of the table in bytes.
    pub fn size(&self) -> (r: usize)
        requires
            self.wf(),
        ensures
            r == prefix_size(self.slot_sizes(), self.slot_sizes().len() as int),
    {
        self.size
    }

    /// Byte offset of slot `i`: the sum of the sizes of all slots before it.
    pub fn offset_of(&self, i: usize) -> (r: usize)
        requires
            self.wf(),
            i < self.slot_sizes().len(),
        ensures
            r == prefix_size(self.slot_sizes(), i as int),
    {
        self.offsets[i]
    }

    /// Slot `i`.
    pub fn slot(&self, i: usize) -> (r: Slot)
        requires
            i < self.slot_sizes().len(),
        ensures
            r.size == self.slot_sizes()[i as int],
            r.kind == self.slot_kinds()[i as int],
            r.name == self.slot_names()[i as int],
    {
        self.slots[i]
    }
}

/// Name the runtime gives slot `i` of its table.
fn table_slot_name(i: usize) -> (r: &'static str)
    requires
        i < SLOT_COUNT,
    ensures
        r == table_slot_names()[i as int],
{
    match i {
        0 => "reserved0",
        1 => "reserved1",
        2 => "reserved2",
        3 => "reserved3",
        4 => "GetVersion",
        5 => "DefineClass",
        6 => "FindClass",
        7 => "FromReflectedMethod",
        8 => "FromReflectedField",
        9 => "ToReflectedMethod",
        10 => "GetSuperclass",
        11 => "IsAssignableFrom",
        12 => "ToReflectedField",
        13 => "Throw",
        14 => "ThrowNew",
        15 => "ExceptionOccurred",
        16 => "ExceptionDescribe",
        17 => "ExceptionClear",
        18 => "FatalError",
        19 => "PushLocalFrame",
        20 => "PopLocalFrame",
        21 => "NewGlobalRef",
        22 => "DeleteGlobalRef",
        23 => "DeleteLocalRef",
        24 => "IsSameObject",
        25 => "NewLocalRef",
        26 => "EnsureLocalCapacity",
        27 => "AllocObject",
        28 => "NewObject",
        29 => "NewObjectV",
        30 => "NewObjectA",
        31 => "GetObjectClass",
        32 => "IsInstanceOf",
        33 => "GetMethodId",
        34 => "CallObjectMethod",
        35 => "CallObjectMethodV",
        _ => "CallObjectMethodA",
    }
}

fn table_slot_kind_of(i: usize) -> (r: SlotKind)
    ensures
        r == table_slot_kind(i as int),
{
    if i < 4 {
        SlotKind::Reserved
    } else if i == GET_VERSION_SLOT || i == GET_OBJECT_CLASS_SLOT || i == GET_METHOD_ID_SLOT
        || i == CALL_OBJECT_METHOD_A_SLOT {
        SlotKind::Bound
    } else {
        SlotKind::Unbound
    }
}

impl JNINativeInterface {
    /// The runtime's table: `SLOT_COUNT` function pointers, each the size of
    /// a machine word, in the order the runtime declares them.
    pub fn runtime_table() -> (r: Self)
        ensures
            r.is_runtime_table(),
    {
        broadcast use vstd::layout::layout_of_primitives;

        let width = core::mem::size_of::<usize>();
        assert(width <= 8);
        let mut t = JNINativeInterface::new();
        let mut i: usize = 0;
        while i < SLOT_COUNT
            invariant
                i <= SLOT_COUNT,
                width == size_of::<usize>(),
                width <= 8,
                t.wf(),
                t.slot_sizes().len() == i,
                forall|k: int| 0 <= k < i ==> #[trigger] t.slot_sizes()[k] == width,
                forall|k: int| 0 <= k < i ==> #[trigger] t.slot_kinds()[k] == table_slot_kind(k),
                forall|k: int| 0 <= k < i ==> #[trigger] t.slot_names()[k] == table_slot_names()[k],
            decreases SLOT_COUNT - i,
        {
            proof {
                lemma_uniform_offsets(t.slot_sizes(), width, i as int);
                assert(i * width + width <= 37 * 8) by (nonlinear_arith)
                    requires
                        i < 37,
                        width <= 8,
                ;
            }
            let slot = Slot { name: table_slot_name(i), kind: table_slot_kind_of(i), size: width };
            t.push(slot);
            i = i + 1;
        }
        assert(t.slot_names() =~= table_slot_names());
        t
    }
}

/// Adding a slot leaves the prefix sums up to the old length as they were.
proof fn lemma_prefix_size_push(sizes: Seq<usize>, size: usize, i: int)
    requires
        0 <= i <= sizes.len(),
    ensures
        prefix_size(sizes.push(size), i) == prefix_size(sizes, i),
        prefix_size(sizes.push(size), i + 1) == prefix_size(sizes, i) + sizes.push(size)[i],
    decreases i,
{
    if i > 0 {
        lemma_prefix_size_push(sizes, size, i - 1);
    }
}

/// Each slot starts where the one before it ends: the slots neither overlap
/// nor leave gaps, and all lie within the table.
pub proof fn lemma_slots_are_contiguous(t: &JNINativeInterface, i: int)
    requires
        t.wf(),
        0 <= i < t.slot_sizes().len(),
    ensures
        prefix_size(t.slot_sizes(), i + 1) == prefix_size(t.slot_sizes(), i) + t.slot_sizes()[i],
        prefix_size(t.slot_sizes(), i) + t.slot_sizes()[i] <= prefix_size(
            t.slot_sizes(),
            t.slot_sizes().len() as int,
        ),
{
    lemma_prefix_size_monotonic(t.slot_sizes(), i + 1, t.slot_sizes().len() as int);
}

proof fn lemma_prefix_size_monotonic(sizes: Seq<usize>, i: int, j: int)
    requires
        0 <= i <= j <= sizes.len(),
    ensures
        prefix_size(sizes, i) <= prefix_size(sizes, j),
    decreases j - i,
{
    if i < j {
        lemma_prefix_size_monotonic(sizes, i, j - 1);
    }
}

/// In the runtime's table slot `i` starts `i` machine words from the start,
/// and the whole table is `SLOT_COUNT` words long.
pub proof fn lemma_runtime_table_offsets(t: &JNINativeInterface, i: int)
    requires
        t.is_runtime_table(),
        0 <= i <= SLOT_COUNT,
    ensures
        prefix_size(t.slot_sizes(), i) == i * size_of::<usize>(),
        prefix_size(t.slot_sizes(), SLOT_COUNT as int) == SLOT_COUNT * size_of::<usize>(),
{
    lemma_uniform_offsets(t.slot_sizes(), size_of::<usize>() as usize, i);
    lemma_uniform_offsets(t.slot_sizes(), size_of::<usize>() as usize, SLOT_COUNT as int);
}

/// Where every slot is `width` bytes wide, slot `i` starts at `i * width`.
pub proof fn lemma_uniform_offsets(sizes: Seq<usize>, width: usize, i: int)
    requires
        0 <= i <= sizes.len(),
        forall|k: int| 0 <= k < sizes.len() ==> sizes[k] == width,
    ensures
        prefix_size(sizes, i) == i * width,
    decreases i,
{
    if i > 0 {
        lemma_uniform_offsets(sizes, width, i - 1);
        assert(prefix_size(sizes, i) == (i - 1) * width + width);
        assert((i - 1) * width + width == i * width) by (nonlinear_arith);
    } else {
        assert(i * width == 0) by (nonlinear_arith)
            requires
                i == 0,
        ;
    }
}

} // verus!
