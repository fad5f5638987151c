//! A guarded walk of the capability list: the singly linked list of optional
//! capability structures rooted at the pointer in the header.
use vstd::prelude::*;

use crate::ConfigRegionAccess;
use crate::PciAddress;

verus! {

/// One entry of the capability list: the capability id and the offset of the
/// capability's own structure in configuration space.
#[derive(Clone, Copy, PartialEq, Eq, Structural, Debug)]
pub struct CapabilityEntry {
    pub id: u8,
    pub offset: u16,
}

/// The error reported when the list's next pointers revisit an offset: a
/// cyclic or self-referential list is malformed hardware state and is cut
/// short instead of being walked forever.
#[derive(Clone, Copy, PartialEq, Eq, Debug)]
pub struct MalformedCapabilityList;

/// The capability id held in a capability header word: its low byte.
pub open spec fn spec_capability_id_of(word: u32) -> u8 {
    (word & 0xff) as u8
}

/// The next pointer held in a capability header word: its second byte.
pub open spec fn spec_capability_next_of(word: u32) -> u16 {
    ((word >> 8) & 0xff) as u16
}

/// Splits a capability header word into (capability id, next pointer).
pub fn decode_capability_header(word: u32) -> (r: (u8, u16))
    ensures
        r.0 == spec_capability_id_of(word),
        r.1 == spec_capability_next_of(word),
        r.1 < 0x100,
{
    proof {
        assert((((word >> 8) & 0xff) as u16) < 0x100) by (bit_vector);
    }
    ((word & 0xff) as u8, ((word >> 8) & 0xff) as u16)
}

/// A stateful cursor over the capability list. A cursor of zero means the
/// list is exhausted. Offsets already yielded are remembered, so a next
/// pointer that leads back to one of them stops the walk with
/// [`MalformedCapabilityList`] instead of looping. One traversal per
/// iterator: it is not restartable.
pub struct CapabilityIterator<'a, T: ConfigRegionAccess> {
    address: PciAddress,
    offset: u16,
    visited: Vec<u16>,
    access: &'a T,
}

/// The offsets at which a sequence of entries was yielded, in order.
pub open spec fn spec_offsets_of(entries: Seq<CapabilityEntry>) -> Seq<u16> {
    entries.map_values(|entry: CapabilityEntry| entry.offset)
}

impl<'a, T: ConfigRegionAccess> CapabilityIterator<'a, T> {
    /// The address whose configuration space is walked.
    pub closed spec fn spec_address(&self) -> PciAddress {
        self.address
    }

    /// The cursor: the offset the next step will read, or zero at the end of
    /// the list.
    pub closed spec fn spec_offset(&self) -> u16 {
        self.offset
    }

    /// The offsets already yielded, in order.
    pub closed spec fn spec_visited(&self) -> Seq<u16> {
        self.visited@
    }

    /// The iterator's invariant: the cursor and every yielded offset are
    /// 8-bit pointers, no offset was yielded twice, and the zero offset (the
    /// end of the list) is never yielded. Distinctness is what makes every
    /// traversal finite: at most 255 offsets can ever be yielded.
    pub open spec fn wf(&self) -> bool {
        &&& self.spec_offset() < 0x100
        &&& self.spec_visited().no_duplicates()
        &&& forall|i: int|
            0 <= i < self.spec_visited().len() ==> 0 < #[trigger] self.spec_visited()[i] < 0x100
    }

    pub fn new(address: PciAddress, offset: u16, access: &'a T) -> (r: Self)
        requires
            offset < 0x100,
        ensures
            r.wf(),
            r.spec_address() == address,
            r.spec_offset() == offset,
            r.spec_visited() === Seq::<u16>::empty(),
    {
        CapabilityIterator { address, offset, visited: Vec::new(), access }
    }

    /// One step of the walk. A zero cursor ends the list; a cursor that was
    /// already yielded reports the malformed list; otherwise exactly one
    /// read is issued at the cursor, (id, cursor) is yielded, and the cursor
    /// moves to the next pointer found in that read.
    pub fn next_capability(&mut self) -> (r: Result<
        Option<CapabilityEntry>,
        MalformedCapabilityList,
    >)
        requires
            old(self).wf(),
        ensures
            final(self).wf(),
            final(self).spec_address() == old(self).spec_address(),
            old(self).spec_offset() == 0 ==> r == Ok::<
                Option<CapabilityEntry>,
                MalformedCapabilityList,
            >(None) && *final(self) == *old(self),
            old(self).spec_offset() != 0 && old(self).spec_visited().contains(
                old(self).spec_offset(),
            ) ==> r == Err::<Option<CapabilityEntry>, MalformedCapabilityList>(
                MalformedCapabilityList,
            ) && *final(self) == *old(self),
            old(self).spec_offset() != 0 && !old(self).spec_visited().contains(
                old(self).spec_offset(),
            ) ==> (final(self).spec_visited() === old(self).spec_visited().push(
                old(self).spec_offset(),
            ) && exists|word: u32|
                r == Ok::<Option<CapabilityEntry>, MalformedCapabilityList>(
                    Some(
                        CapabilityEntry {
                            id: spec_capability_id_of(word),
                            offset: old(self).spec_offset(),
                        },
                    ),
                ) && final(self).spec_offset() == spec_capability_next_of(word)),
    {
        if self.offset == 0 {
            return Ok(None);
        }
        if contains_offset(&self.visited, self.offset) {
            return Err(MalformedCapabilityList);
        }
        let current = self.offset;
        proof {
            lemma_push_keeps_no_duplicates(self.visited@, current);
        }
        self.visited.push(current);
        let word = self.access.read(self.address, current);
        let (id, next) = decode_capability_header(word);
        self.offset = next;
        let r = Ok(Some(CapabilityEntry { id, offset: current }));
        proof {
            assert(r == Ok::<Option<CapabilityEntry>, MalformedCapabilityList>(
                Some(CapabilityEntry { id: spec_capability_id_of(word), offset: current }),
            ) && self.spec_offset() == spec_capability_next_of(word));
        }
        r
    }

    /// Walks the rest of the list into a vector: the eager form of the
    /// traversal, in yield order. The walk provably terminates: every step
    /// yields a distinct 8-bit offset, so at most 255 steps can happen
    /// before the list ends or the malformed-list error cuts a cycle short.
    pub fn collect_capabilities(&mut self) -> (r: Result<
        Vec<CapabilityEntry>,
        MalformedCapabilityList,
    >)
        requires
            old(self).wf(),
        ensures
            final(self).wf(),
            final(self).spec_address() == old(self).spec_address(),
            r matches Ok(entries) ==> final(self).spec_offset() == 0 && spec_offsets_of(entries@)
                === final(self).spec_visited().skip(old(self).spec_visited().len() as int),
            r matches Ok(entries) ==> spec_offsets_of(entries@).no_duplicates(),
            r is Err ==> final(self).spec_visited().contains(final(self).spec_offset()),
    {
        let mut entries: Vec<CapabilityEntry> = Vec::new();
        let ghost base = self.spec_visited().len() as int;
        proof {
            assert(spec_offsets_of(entries@) =~= self.spec_visited().skip(base));
        }
        loop
            invariant
                self.wf(),
                self.spec_address() == old(self).spec_address(),
                base == old(self).spec_visited().len(),
                base <= self.spec_visited().len(),
                spec_offsets_of(entries@) === self.spec_visited().skip(base),
            decreases 0x100 - self.spec_visited().len(),
        {
            proof {
                lemma_distinct_pointers_are_few(self.spec_visited());
            }
            let ghost seen = self.spec_visited();
            match self.next_capability() {
                Ok(Some(entry)) => {
                    let ghost previous = entries@;
                    entries.push(entry);
                    proof {
                        let post = self.spec_visited();
                        assert(post =~= seen.push(entry.offset));
                        assert(spec_offsets_of(previous).len() == previous.len());
                        assert(seen.skip(base).len() == seen.len() - base);
                        assert(entries@ == previous.push(entry));
                        assert(spec_offsets_of(entries@).len() == previous.len() + 1);
                        assert(post.skip(base).len() == previous.len() + 1);
                        assert forall|k: int|
                            0 <= k < entries@.len() implies spec_offsets_of(entries@)[k]
                            == post.skip(base)[k] by {
                            assert(post.skip(base)[k] == post[k + base]);
                            if k < previous.len() {
                                assert(entries@[k] == previous[k]);
                                assert(spec_offsets_of(previous)[k] == seen.skip(base)[k]);
                                assert(seen.skip(base)[k] == seen[k + base]);
                                assert(post[k + base] == seen[k + base]);
                            } else {
                                assert(entries@[k] == entry);
                                assert(post[k + base] == entry.offset);
                            }
                        }
                        assert(spec_offsets_of(entries@) =~= post.skip(base));
                    }
                },
                Ok(None) => {
                    proof {
                        lemma_skip_keeps_no_duplicates(self.spec_visited(), base);
                    }
                    return Ok(entries);
                },
                Err(error) => {
                    return Err(error);
                },
            }
        }
    }
}

/// An offset pushed only when it was not yet yielded keeps the yield record
/// free of duplicates.
proof fn lemma_push_keeps_no_duplicates(s: Seq<u16>, x: u16)
    requires
        s.no_duplicates(),
        !s.contains(x),
    ensures
        s.push(x).no_duplicates(),
{
    let t = s.push(x);
    assert forall|i: int, j: int|
        0 <= i < t.len() && 0 <= j < t.len() && i != j implies t[i] != t[j] by {
        if i < s.len() && j < s.len() {
        } else if j == s.len() {
            if s[i] == x {
                assert(s.contains(x));
            }
        } else {
            if s[j] == x {
                assert(s.contains(x));
            }
        }
    }
}

/// Dropping a prefix of a duplicate-free record leaves it duplicate-free.
proof fn lemma_skip_keeps_no_duplicates(s: Seq<u16>, n: int)
    requires
        s.no_duplicates(),
        0 <= n <= s.len(),
    ensures
        s.skip(n).no_duplicates(),
{
    let t = s.skip(n);
    assert forall|i: int, j: int|
        0 <= i < t.len() && 0 <= j < t.len() && i != j implies t[i] != t[j] by {
        assert(t[i] == s[i + n]);
        assert(t[j] == s[j + n]);
    }
}

/// The pigeonhole bound behind termination: distinct non-zero 8-bit offsets
/// number at most 255.
proof fn lemma_distinct_pointers_are_few(s: Seq<u16>)
    requires
        s.no_duplicates(),
        forall|i: int| 0 <= i < s.len() ==> 0 < #[trigger] s[i] < 0x100,
    ensures
        s.len() <= 0xff,
{
    let to_int = |v: u16| v as int;
    let ints = s.map_values(to_int);
    assert forall|i: int, j: int|
        0 <= i < ints.len() && 0 <= j < ints.len() && i != j implies ints[i] != ints[j] by {
        assert(ints[i] == to_int(s[i]));
        assert(ints[j] == to_int(s[j]));
    }
    ints.unique_seq_to_set();
    assert forall|x: int| ints.to_set().contains(x) implies vstd::set_lib::set_int_range(
        1,
        0x100,
    ).contains(x) by {
        let i = choose|i: int| 0 <= i < ints.len() && ints[i] == x;
        assert(ints[i] == to_int(s[i]));
    }
    vstd::set_lib::lemma_int_range(1, 0x100);
    vstd::set_lib::lemma_len_subset(ints.to_set(), vstd::set_lib::set_int_range(1, 0x100));
}

/// Whether the offset stands among those already yielded.
fn contains_offset(visited: &Vec<u16>, offset: u16) -> (r: bool)
    ensures
        r == visited@.contains(offset),
{
    let mut i: usize = 0;
    while i < visited.len()
        invariant
            i <= visited@.len(),
            forall|j: int| 0 <= j < i ==> visited@[j] != offset,
        decreases visited@.len() - i,
    {
        if visited[i] == offset {
            return true;
        }
        i = i + 1;
    }
    false
}

} // verus!
