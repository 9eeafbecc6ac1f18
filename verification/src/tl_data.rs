//! Tagged-data (TL-data) records and their native linked-list form.
//!
//! Natively, TL-data is a singly-linked chain of (type, length, pointer)
//! nodes. The portable form is an ordered sequence of (type tag, byte blob)
//! pairs. Conversion to native form lays every node out in one contiguous
//! vector — each node's link points at the next element — and keeps one owned
//! byte buffer per node; the bundle keeps nodes and buffers alive together.

use vstd::prelude::*;

use vstd::slice::slice_to_vec;

use crate::sys::KAdm5Variant;

verus! {

/// A single TL-data entry.
#[derive(Clone, Debug, Default)]
pub struct TlDataEntry {
    /// TL-data type tag
    pub data_type: i16,
    /// Entry contents
    pub contents: Vec<u8>,
}

impl View for TlDataEntry {
    type V = (i16, Seq<u8>);

    open spec fn view(&self) -> (i16, Seq<u8>) {
        (self.data_type, self.contents@)
    }
}

/// TL-data entries in portable form.
#[derive(Clone, Debug, Default)]
pub struct TlData {
    /// TL-data entries
    pub entries: Vec<TlDataEntry>,
}

impl View for TlData {
    type V = Seq<(i16, Seq<u8>)>;

    open spec fn view(&self) -> Seq<(i16, Seq<u8>)> {
        Seq::new(self.entries@.len(), |i: int| self.entries@[i]@)
    }
}

/// One native node: its type tag and its recorded payload length. The link
/// to the next node is positional — node `i` points at node `i + 1`, and the
/// last node's link is null.
#[derive(Clone, Copy, Debug, PartialEq, Eq, Structural)]
pub struct TlDataNode {
    /// TL-data type tag
    pub tl_data_type: i16,
    /// Recorded payload length
    pub tl_data_length: u16,
}

/// The widest payload length one native node of this family can record.
pub open spec fn spec_max_entry_len(variant: KAdm5Variant) -> int {
    if variant.spec_is_mit() {
        0xffff
    } else {
        0x7fff
    }
}

/// The node layout a conversion to native form produces.
pub open spec fn spec_tl_encode_nodes(entries: Seq<(i16, Seq<u8>)>) -> Seq<TlDataNode> {
    Seq::new(
        entries.len(),
        |i: int|
            TlDataNode { tl_data_type: entries[i].0, tl_data_length: entries[i].1.len() as u16 },
    )
}

/// The backing buffers a conversion to native form produces.
pub open spec fn spec_tl_encode_backing(entries: Seq<(i16, Seq<u8>)>) -> Seq<Seq<u8>> {
    Seq::new(entries.len(), |i: int| entries[i].1)
}

/// The portable entries a walk of the native chain reads back: each node's
/// tag, and as many payload bytes as the node records.
pub open spec fn spec_tl_decode(nodes: Seq<TlDataNode>, backing: Seq<Seq<u8>>) -> Seq<
    (i16, Seq<u8>),
> {
    Seq::new(
        nodes.len(),
        |i: int| (nodes[i].tl_data_type, backing[i].subrange(0, nodes[i].tl_data_length as int)),
    )
}

/// The native form of a TL-data chain: the contiguous node vector and the
/// owned payload buffers its pointers reach into, bundled so they are freed
/// together and the links stay valid for exactly the bundle's lifetime.
#[derive(Debug)]
pub struct TlDataRaw {
    variant: KAdm5Variant,
    nodes: Vec<TlDataNode>,
    backing: Vec<Vec<u8>>,
}

impl TlDataRaw {
    /// The node layout, as seen by specifications.
    pub closed spec fn spec_nodes(&self) -> Seq<TlDataNode> {
        self.nodes@
    }

    /// The payload buffers, as seen by specifications.
    pub closed spec fn spec_backing(&self) -> Seq<Seq<u8>> {
        self.backing.deep_view()
    }

    /// The variant the chain was laid out for.
    pub closed spec fn spec_variant(&self) -> KAdm5Variant {
        self.variant
    }

    /// A well-laid-out chain: one buffer per node, each exactly as long as
    /// its node records, and no node longer than the family's width allows.
    pub open spec fn spec_wf(&self) -> bool {
        &&& self.spec_nodes().len() == self.spec_backing().len()
        &&& forall|i: int|
            0 <= i < self.spec_nodes().len() ==> (#[trigger] self.spec_backing()[i]).len()
                == self.spec_nodes()[i].tl_data_length
        &&& forall|i: int|
            0 <= i < self.spec_nodes().len() ==> (#[trigger] self.spec_nodes()[i]).tl_data_length
                <= spec_max_entry_len(self.spec_variant())
    }

    /// The number of nodes in the chain.
    pub fn len(&self) -> (r: usize)
        ensures
            r == self.spec_nodes().len(),
    {
        self.nodes.len()
    }

    /// Lay a portable TL-data value out in native form for `variant`.
    ///
    /// Every entry must fit the family's length field — a machine limit of
    /// the native node layout.
    pub fn build(variant: KAdm5Variant, tl_data: &TlData) -> (r: TlDataRaw)
        requires
            forall|i: int|
                0 <= i < tl_data@.len() ==> (#[trigger] tl_data@[i]).1.len() <= spec_max_entry_len(
                    variant,
                ),
        ensures
            r.spec_variant() == variant,
            r.spec_nodes() == spec_tl_encode_nodes(tl_data@),
            r.spec_backing() == spec_tl_encode_backing(tl_data@),
            r.spec_wf(),
    {
        let mut nodes: Vec<TlDataNode> = Vec::new();
        let mut backing: Vec<Vec<u8>> = Vec::new();
        let mut i: usize = 0;
        while i < tl_data.entries.len()
            invariant
                0 <= i <= tl_data.entries@.len(),
                forall|m: int|
                    0 <= m < tl_data@.len() ==> (#[trigger] tl_data@[m]).1.len()
                        <= spec_max_entry_len(variant),
                nodes@ == spec_tl_encode_nodes(tl_data@).subrange(0, i as int),
                backing.deep_view() == spec_tl_encode_backing(tl_data@).subrange(0, i as int),
            decreases tl_data.entries@.len() - i,
        {
            let entry = &tl_data.entries[i];
            let contents = slice_to_vec(entry.contents.as_slice());
            proof {
                assert(tl_data@[i as int] == (entry.data_type, entry.contents@));
                assert(tl_data@[i as int].1.len() <= 0xffff);
            }
            let node = TlDataNode {
                tl_data_type: entry.data_type,
                tl_data_length: contents.len() as u16,
            };
            nodes.push(node);
            let ghost prev_backing = backing.deep_view();
            let ghost contents_view = contents@;
            backing.push(contents);
            proof {
                assert forall|m: int| 0 <= m < prev_backing.len() implies backing.deep_view()[m]
                    == prev_backing[m] by {}
                assert(backing.deep_view()[prev_backing.len() as int] == contents_view);
                assert(nodes@ =~= spec_tl_encode_nodes(tl_data@).subrange(0, i + 1 as int));
                assert(backing.deep_view() =~= spec_tl_encode_backing(tl_data@).subrange(
                    0,
                    i + 1 as int,
                ));
            }
            i += 1;
        }
        proof {
            assert(spec_tl_encode_nodes(tl_data@).subrange(0, tl_data@.len() as int)
                =~= spec_tl_encode_nodes(tl_data@));
            assert(spec_tl_encode_backing(tl_data@).subrange(0, tl_data@.len() as int)
                =~= spec_tl_encode_backing(tl_data@));
        }
        let r = TlDataRaw { variant, nodes, backing };
        proof {
            assert(r.spec_wf());
        }
        r
    }
}

impl TlData {
    /// Read a native TL-data chain back into portable form, walking the
    /// nodes in link order and copying each node's recorded bytes.
    pub fn from_raw(raw: &TlDataRaw) -> (r: TlData)
        requires
            raw.spec_wf(),
        ensures
            r@ == spec_tl_decode(raw.spec_nodes(), raw.spec_backing()),
    {
        let mut entries: Vec<TlDataEntry> = Vec::new();
        let mut i: usize = 0;
        let ghost decoded = spec_tl_decode(raw.spec_nodes(), raw.spec_backing());
        while i < raw.nodes.len()
            invariant
                raw.spec_wf(),
                decoded == spec_tl_decode(raw.spec_nodes(), raw.spec_backing()),
                0 <= i <= raw.spec_nodes().len(),
                raw.spec_backing().len() == raw.spec_nodes().len(),
                entries@.len() == i,
                forall|m: int| 0 <= m < i ==> (#[trigger] entries@[m])@ == decoded[m],
            decreases raw.spec_nodes().len() - i,
        {
            let node = raw.nodes[i];
            let contents = slice_to_vec(raw.backing[i].as_slice());
            let ghost contents_view = contents@;
            proof {
                assert(node == raw.spec_nodes()[i as int]);
                assert(raw.spec_backing()[i as int] == raw.backing@[i as int]@);
                assert(contents_view == raw.spec_backing()[i as int]);
                assert(contents_view.len() == node.tl_data_length);
                assert(contents_view.subrange(0, node.tl_data_length as int) =~= contents_view);
                assert(decoded[i as int] == (node.tl_data_type, contents_view));
            }
            let new_entry = TlDataEntry { data_type: node.tl_data_type, contents };
            proof {
                assert(new_entry@ == (node.tl_data_type, contents_view));
            }
            entries.push(new_entry);
            i += 1;
        }
        let r = TlData { entries };
        proof {
            assert(r@ =~= decoded);
        }
        r
    }
}

/// Law: converting a portable TL-data sequence to native form and walking it
/// back yields the original sequence — same order, same type tags, same byte
/// contents — for every sequence whose entries fit the family's width.
pub proof fn lemma_tl_data_round_trip(variant: KAdm5Variant, entries: Seq<(i16, Seq<u8>)>)
    requires
        forall|i: int|
            0 <= i < entries.len() ==> (#[trigger] entries[i]).1.len() <= spec_max_entry_len(
                variant,
            ),
    ensures
        spec_tl_decode(spec_tl_encode_nodes(entries), spec_tl_encode_backing(entries)) == entries,
{
    let decoded = spec_tl_decode(spec_tl_encode_nodes(entries), spec_tl_encode_backing(entries));
    assert forall|i: int| 0 <= i < entries.len() implies decoded[i] == entries[i] by {
        assert(entries[i].1.len() <= 0xffff);
        assert(entries[i].1.subrange(0, entries[i].1.len() as int) =~= entries[i].1);
    }
    assert(decoded =~= entries);
}

} // verus!
