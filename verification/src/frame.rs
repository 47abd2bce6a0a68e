//! Stack-frame allocator.
//!
//! Each local or parameter receives one 8-byte slot at a fixed offset
//! below the frame base, assigned in declaration order and never
//! reused within one activation.  Redeclaring a name shadows the
//! previous mapping (the last writer wins).

use vstd::prelude::*;
use crate::ast::Type;

verus! {

/// Where a variable lives: its slot's offset below the frame base
/// (the slot is addressed as `[rbp - offset]`) and its static type.
#[derive(Debug)]
pub struct VariableLocation {
    pub stack_offset: u64,
    pub ty: Type,
}

/// Mathematical model of a frame: running size in bytes and the
/// name-to-location bindings in declaration order.
pub struct FrameModel {
    pub size: int,
    pub entries: Seq<(Seq<char>, VariableLocation)>,
}

/// The binding of `name`, scanning bindings from the most recent.
pub open spec fn spec_lookup(
    entries: Seq<(Seq<char>, VariableLocation)>,
    name: Seq<char>,
) -> Option<VariableLocation>
    decreases entries.len(),
{
    if entries.len() == 0 {
        None
    } else if entries.last().0 == name {
        Some(entries.last().1)
    } else {
        spec_lookup(entries.drop_last(), name)
    }
}

/// The model of a frame with no bindings.
pub open spec fn empty_frame() -> FrameModel {
    FrameModel { size: 0, entries: Seq::empty() }
}

/// Model of declaring one name: the frame grows by one 8-byte slot
/// and the new binding's offset is the new size.
pub open spec fn spec_declare(m: FrameModel, name: Seq<char>, ty: Type) -> FrameModel {
    FrameModel {
        size: m.size + 8,
        entries: m.entries.push(
            (name, VariableLocation { stack_offset: (m.size + 8) as u64, ty }),
        ),
    }
}

/// Per-function table of variable slots.
#[derive(Debug)]
pub struct Frame {
    size: u64,
    entries: Vec<(String, VariableLocation)>,
}

impl View for Frame {
    type V = FrameModel;

    closed spec fn view(&self) -> FrameModel {
        FrameModel {
            size: self.size as int,
            entries: self.entries@.map(|i: int, e: (String, VariableLocation)| (e.0@, e.1)),
        }
    }
}

impl Frame {
    /// A frame with no bindings and zero size.
    pub fn new() -> (f: Self)
        ensures
            f@ == empty_frame(),
    {
        let f = Frame { size: 0, entries: Vec::new() };
        proof {
            assert(f@.entries =~= empty_frame().entries);
        }
        f
    }

    /// Clears all bindings and zeroes the size; called once per
    /// function before its body is lowered.
    pub fn reset(&mut self)
        ensures
            final(self)@ == empty_frame(),
    {
        self.size = 0;
        self.entries.clear();
        proof {
            assert(self@.entries =~= empty_frame().entries);
        }
    }

    /// Current frame size in bytes.
    pub fn size(&self) -> (n: u64)
        ensures
            n as int == self@.size,
    {
        self.size
    }

    /// Grows the frame by one slot, binds `name` to it, and returns
    /// the slot's offset.
    pub fn declare(&mut self, name: String, ty: Type) -> (offset: u64)
        requires
            old(self)@.size + 8 <= u64::MAX,
        ensures
            final(self)@ == spec_declare(old(self)@, name@, ty),
            offset as int == old(self)@.size + 8,
    {
        self.size = self.size + 8;
        let offset = self.size;
        self.entries.push((name, VariableLocation { stack_offset: offset, ty }));
        proof {
            assert(self@.entries =~= spec_declare(old(self)@, name@, ty).entries);
        }
        offset
    }

    /// Grows the frame by one anonymous 8-byte slot (a spill
    /// temporary of the calling-convention marshaller) and returns
    /// its offset.
    pub fn reserve_temp(&mut self) -> (offset: u64)
        requires
            old(self)@.size + 8 <= u64::MAX,
        ensures
            final(self)@.size == old(self)@.size + 8,
            final(self)@.entries == old(self)@.entries,
            offset as int == old(self)@.size + 8,
    {
        self.size = self.size + 8;
        self.size
    }

    /// Releases `bytes` bytes of anonymous slots.
    pub fn release(&mut self, bytes: u64)
        requires
            bytes <= old(self)@.size,
        ensures
            final(self)@.size == old(self)@.size - bytes,
            final(self)@.entries == old(self)@.entries,
    {
        self.size = self.size - bytes;
    }

    /// The location of `name`, honouring shadowing; `None` if the
    /// name has no slot in this frame.
    pub fn lookup(&self, name: &String) -> (r: Option<&VariableLocation>)
        ensures
            match r {
                Some(loc) => spec_lookup(self@.entries, name@) == Some(*loc),
                None => spec_lookup(self@.entries, name@) is None,
            },
    {
        let ghost entries = self@.entries;
        let mut i: usize = self.entries.len();
        proof {
            assert(entries.take(i as int) =~= entries);
        }
        while i > 0
            invariant
                entries == self@.entries,
                entries.len() == self.entries@.len(),
                0 <= i <= entries.len(),
                spec_lookup(entries, name@) == spec_lookup(entries.take(i as int), name@),
            decreases i,
        {
            i = i - 1;
            let ghost prefix = entries.take(i as int + 1);
            proof {
                assert(prefix.last() == entries[i as int]);
                assert(prefix.drop_last() =~= entries.take(i as int));
            }
            if self.entries[i].0.eq(name) {
                return Some(&self.entries[i].1);
            }
        }
        proof {
            assert(entries.take(0) =~= Seq::<(Seq<char>, VariableLocation)>::empty());
        }
        None
    }
}

/// The size of a real frame always lies in the machine range.
pub proof fn lemma_frame_bounds(f: &Frame)
    ensures
        0 <= f@.size <= u64::MAX,
{
}

/// Model of declaring a list of names in order.
pub open spec fn spec_declare_all(m: FrameModel, names: Seq<(Seq<char>, Type)>) -> FrameModel
    decreases names.len(),
{
    if names.len() == 0 {
        m
    } else {
        spec_declare_all(spec_declare(m, names[0].0, names[0].1), names.drop_first())
    }
}

/// Sequential declarations each take exactly one 8-byte slot: after
/// `N` declarations the frame has grown by `8 * N`, one binding was
/// appended per declaration, and the offsets of the new bindings
/// strictly increase in declaration order.
pub proof fn lemma_declare_all(m: FrameModel, names: Seq<(Seq<char>, Type)>)
    requires
        0 <= m.size,
        m.size + 8 * names.len() <= u64::MAX,
    ensures
        spec_declare_all(m, names).size == m.size + 8 * names.len(),
        spec_declare_all(m, names).entries.len() == m.entries.len() + names.len(),
        forall|i: int|
            0 <= i < m.entries.len() ==> spec_declare_all(m, names).entries[i] == m.entries[i],
        forall|i: int|
            0 <= i < names.len() ==> #[trigger] spec_declare_all(m, names).entries[m.entries.len()
                + i].1.stack_offset == m.size + 8 * (i + 1),
    decreases names.len(),
{
    if names.len() > 0 {
        let m1 = spec_declare(m, names[0].0, names[0].1);
        lemma_declare_all(m1, names.drop_first());
        assert forall|i: int| 0 <= i < m.entries.len() implies spec_declare_all(m, names).entries[i]
            == m.entries[i] by {
            assert(spec_declare_all(m1, names.drop_first()).entries[i] == m1.entries[i]);
            assert(m1.entries[i] == m.entries[i]);
        }
        assert forall|i: int| 0 <= i < names.len() implies #[trigger] spec_declare_all(
            m,
            names,
        ).entries[m.entries.len() + i].1.stack_offset == m.size + 8 * (i + 1) by {
            if i == 0 {
                assert(spec_declare_all(m1, names.drop_first()).entries[m.entries.len() as int]
                    == m1.entries[m.entries.len() as int]);
            } else {
                assert(spec_declare_all(m1, names.drop_first()).entries[m1.entries.len() + (i - 1)]
                    .1.stack_offset == m1.size + 8 * i);
            }
        }
    }
}

/// Starting from a fresh frame, `N` declarations give a frame of size
/// exactly `8 * N` whose slot offsets strictly increase in
/// declaration order.
pub proof fn lemma_sequential_declarations(names: Seq<(Seq<char>, Type)>)
    requires
        8 * names.len() <= u64::MAX,
    ensures
        spec_declare_all(empty_frame(), names).size == 8 * names.len(),
        spec_declare_all(empty_frame(), names).entries.len() == names.len(),
        forall|i: int, j: int|
            0 <= i < j < names.len() ==> spec_declare_all(empty_frame(), names).entries[i].1
                .stack_offset < spec_declare_all(empty_frame(), names).entries[j].1.stack_offset,
{
    lemma_declare_all(empty_frame(), names);
    let m2 = spec_declare_all(empty_frame(), names);
    assert forall|i: int, j: int| 0 <= i < j < names.len() implies m2.entries[i].1.stack_offset
        < m2.entries[j].1.stack_offset by {
        assert(m2.entries[0 + i].1.stack_offset == 8 * (i + 1));
        assert(m2.entries[0 + j].1.stack_offset == 8 * (j + 1));
    }
}

} // verus!
