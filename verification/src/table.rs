//! The font table a rendering context consumes: a name-to-bytes registry and
//! the two family priority lists, with the verified registration logic.

use vstd::prelude::*;

verus! {

/// One named font: an owned byte buffer under a registry name.
#[derive(Debug, Clone, PartialEq, Eq)]
pub struct FontEntry {
    pub name: String,
    pub bytes: Vec<u8>,
}

/// A complete font configuration: the registry of font bytes by name, and
/// the ordered name lists of the proportional and monospace families
/// (earlier names are preferred).
///
/// `entries` keeps registration order; when two entries carry the same name,
/// the later one is the registry's value for it, as `data_map` states.
#[derive(Debug, Clone, PartialEq, Eq)]
pub struct FontTable {
    pub entries: Vec<FontEntry>,
    pub proportional: Vec<String>,
    pub monospace: Vec<String>,
}

/// The registry that a sequence of entries denotes: each entry binds its
/// name, later entries shadowing earlier ones.
pub open spec fn entries_map(s: Seq<FontEntry>) -> Map<Seq<char>, Seq<u8>>
    decreases s.len(),
{
    if s.len() == 0 {
        Map::empty()
    } else {
        entries_map(s.drop_last()).insert(s.last().name@, s.last().bytes@)
    }
}

/// The names of a family list, as character sequences, in priority order.
pub open spec fn family_model(family: Seq<String>) -> Seq<Seq<char>> {
    family.map(|i: int, n: String| n@)
}

/// What one registration does: `post` is `pre` with `name` bound to `bytes`
/// in the registry and put at the head of both family lists, everything
/// else unchanged.
pub open spec fn registered(pre: FontTable, post: FontTable, name: Seq<char>, bytes: Seq<u8>) -> bool {
    &&& post.data_map() == pre.data_map().insert(name, bytes)
    &&& post.proportional_model() == seq![name] + pre.proportional_model()
    &&& post.monospace_model() == seq![name] + pre.monospace_model()
}

impl FontTable {
    /// The registry this table denotes, as a map from name to bytes.
    pub open spec fn data_map(self) -> Map<Seq<char>, Seq<u8>> {
        entries_map(self.entries@)
    }

    /// The proportional family's names, in priority order.
    pub open spec fn proportional_model(self) -> Seq<Seq<char>> {
        family_model(self.proportional@)
    }

    /// The monospace family's names, in priority order.
    pub open spec fn monospace_model(self) -> Seq<Seq<char>> {
        family_model(self.monospace@)
    }

    /// An empty table: no fonts, no family entries.
    pub fn new() -> (t: FontTable)
        ensures
            t.data_map() == Map::<Seq<char>, Seq<u8>>::empty(),
            t.proportional_model() == Seq::<Seq<char>>::empty(),
            t.monospace_model() == Seq::<Seq<char>>::empty(),
    {
        let t = FontTable { entries: Vec::new(), proportional: Vec::new(), monospace: Vec::new() };
        proof {
            assert(t.proportional_model() =~= Seq::<Seq<char>>::empty());
            assert(t.monospace_model() =~= Seq::<Seq<char>>::empty());
        }
        t
    }

    /// Register `bytes` under `name` and make `name` the first choice of
    /// both families, leaving every previously configured name behind it.
    pub fn register_font(&mut self, name: &str, bytes: Vec<u8>)
        ensures
            registered(*old(self), *final(self), name@, bytes@),
    {
        let ghost pre = *self;
        self.proportional.insert(0, name.to_owned());
        self.monospace.insert(0, name.to_owned());
        let ghost bytes_view = bytes@;
        self.entries.push(FontEntry { name: name.to_owned(), bytes });
        proof {
            assert(self.entries@.drop_last() =~= pre.entries@);
            assert(self.proportional_model() =~= seq![name@] + pre.proportional_model());
            assert(self.monospace_model() =~= seq![name@] + pre.monospace_model());
            assert(self.data_map() == pre.data_map().insert(name@, bytes_view));
        }
    }
}

/// Registering keeps everything already configured: every other name keeps
/// its bytes, the new name maps to the new bytes, and each family name that
/// stood at position `i` stands at `i + 1` afterwards, behind the new name.
pub proof fn lemma_register_keeps_existing(
    pre: FontTable,
    post: FontTable,
    name: Seq<char>,
    bytes: Seq<u8>,
)
    requires
        registered(pre, post, name, bytes),
    ensures
        post.data_map().contains_key(name),
        post.data_map()[name] == bytes,
        forall|k: Seq<char>|
            pre.data_map().contains_key(k) && k != name ==> post.data_map().contains_key(k)
                && post.data_map()[k] == pre.data_map()[k],
        post.proportional_model().len() == pre.proportional_model().len() + 1,
        post.proportional_model()[0] == name,
        forall|i: int|
            0 <= i < pre.proportional_model().len() ==> post.proportional_model()[i + 1]
                == pre.proportional_model()[i],
        post.monospace_model().len() == pre.monospace_model().len() + 1,
        post.monospace_model()[0] == name,
        forall|i: int|
            0 <= i < pre.monospace_model().len() ==> post.monospace_model()[i + 1]
                == pre.monospace_model()[i],
{
}

/// Two registrations under different names leave both fonts in the
/// registry, the later name at the head of each family and the earlier one
/// right behind it, with everything older after them in its old order.
pub proof fn lemma_register_twice(
    t0: FontTable,
    t1: FontTable,
    t2: FontTable,
    first_name: Seq<char>,
    first_bytes: Seq<u8>,
    second_name: Seq<char>,
    second_bytes: Seq<u8>,
)
    requires
        registered(t0, t1, first_name, first_bytes),
        registered(t1, t2, second_name, second_bytes),
        first_name != second_name,
    ensures
        t2.data_map().contains_key(first_name),
        t2.data_map()[first_name] == first_bytes,
        t2.data_map().contains_key(second_name),
        t2.data_map()[second_name] == second_bytes,
        t2.proportional_model()[0] == second_name,
        t2.proportional_model()[1] == first_name,
        t2.proportional_model().skip(2) == t0.proportional_model(),
        t2.monospace_model()[0] == second_name,
        t2.monospace_model()[1] == first_name,
        t2.monospace_model().skip(2) == t0.monospace_model(),
{
    assert(t2.proportional_model().skip(2) =~= t0.proportional_model());
    assert(t2.monospace_model().skip(2) =~= t0.monospace_model());
}

} // verus!
