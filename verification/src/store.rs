//! The short-link store: the single authority for the current mapping from
//! short codes to destination URLs.

use vstd::prelude::*;
use vstd::hash_map::StringHashMap;

verus! {

/// The shared mapping from short code to destination URL. Keys are unique and
/// a write replaces the prior value; the store is the single source of truth
/// for current mappings. Its abstract value is a `Map<Seq<char>, Seq<char>>`
/// from code to destination.
pub struct ShortLinkStore {
    urls: StringHashMap<String>,
}

impl View for ShortLinkStore {
    type V = Map<Seq<char>, Seq<char>>;

    closed spec fn view(&self) -> Map<Seq<char>, Seq<char>> {
        Map::new(
            |code: Seq<char>| self.urls@.contains_key(code),
            |code: Seq<char>| self.urls@[code]@,
        )
    }
}

impl ShortLinkStore {
    /// Data-model invariant: every code held by the store is non-empty.
    pub open spec fn codes_nonempty(&self) -> bool {
        forall|code: Seq<char>| #[trigger] self@.dom().contains(code) ==> code.len() > 0
    }

    /// Creates an empty store; the process owns one such instance for its
    /// whole lifetime.
    pub fn new() -> (store: Self)
        ensures
            store@ == Map::<Seq<char>, Seq<char>>::empty(),
            store.codes_nonempty(),
    {
        let store = ShortLinkStore { urls: StringHashMap::new() };
        proof {
            assert(store@ =~= Map::<Seq<char>, Seq<char>>::empty());
        }
        store
    }

    /// Inserts or overwrites the mapping for `code`; the only way to mutate
    /// the mapping. Returns whatever was previously stored for `code`
    /// (`None` if `code` is new).
    pub fn put(&mut self, code: String, destination: String) -> (prev: Option<String>)
        requires
            code@.len() > 0,
        ensures
            final(self)@ == old(self)@.insert(code@, destination@),
            match prev {
                Some(p) => old(self)@.contains_key(code@) && p@ == old(self)@[code@],
                None => !old(self)@.contains_key(code@),
            },
            old(self).codes_nonempty() ==> final(self).codes_nonempty(),
    {
        let prev = match self.urls.get(code.as_str()) {
            Some(d) => Some(d.clone()),
            None => None,
        };
        self.urls.insert(code, destination);
        proof {
            assert(self@ =~= old(self)@.insert(code@, destination@));
        }
        prev
    }

    /// Returns the current destination for `code`, or `None` if absent.
    /// Absence is represented, not an error; `get` never fails.
    pub fn get(&self, code: &str) -> (destination: Option<String>)
        ensures
            match destination {
                Some(d) => self@.contains_key(code@) && d@ == self@[code@],
                None => !self@.contains_key(code@),
            },
    {
        match self.urls.get(code) {
            Some(d) => Some(d.clone()),
            None => None,
        }
    }
}

/// The mapping after a sequence of `put`s, applied in order to a store whose
/// mapping was `m`; each element of `puts` is a `(code, destination)` pair.
/// This is exactly how `put` transforms the store's view.
pub open spec fn after_puts(
    m: Map<Seq<char>, Seq<char>>,
    puts: Seq<(Seq<char>, Seq<char>)>,
) -> Map<Seq<char>, Seq<char>>
    decreases puts.len(),
{
    if puts.len() == 0 {
        m
    } else {
        after_puts(m, puts.drop_last()).insert(puts.last().0, puts.last().1)
    }
}

/// Law: `put(code, destination)` followed by `get(code)`, with no intervening
/// `put` to the same code, returns the destination just written — stated over
/// the map views that `put`'s and `get`'s contracts use.
pub proof fn lemma_put_then_get(
    m: Map<Seq<char>, Seq<char>>,
    code: Seq<char>,
    destination: Seq<char>,
)
    ensures
        m.insert(code, destination).contains_key(code),
        m.insert(code, destination)[code] == destination,
{
}

/// Law: `put(code, first)` then `put(code, second)` then `get(code)` returns
/// `second`; after the first of the two puts alone, `get(code)` returns
/// `first`.
pub proof fn lemma_overwrite(
    m: Map<Seq<char>, Seq<char>>,
    code: Seq<char>,
    first: Seq<char>,
    second: Seq<char>,
)
    ensures
        m.insert(code, first).insert(code, second).contains_key(code),
        m.insert(code, first).insert(code, second)[code] == second,
        m.insert(code, first).contains_key(code),
        m.insert(code, first)[code] == first,
{
}

/// Law: a code never written stays absent — any sequence of `put`s, none of
/// which uses `code`, leaves `get(code)` returning "absent".
pub proof fn lemma_never_written_absent(
    m: Map<Seq<char>, Seq<char>>,
    puts: Seq<(Seq<char>, Seq<char>)>,
    code: Seq<char>,
)
    requires
        !m.contains_key(code),
        forall|i: int| 0 <= i < puts.len() ==> (#[trigger] puts[i]).0 != code,
    ensures
        !after_puts(m, puts).contains_key(code),
    decreases puts.len(),
{
    if puts.len() > 0 {
        assert forall|i: int| 0 <= i < puts.drop_last().len()
            implies (#[trigger] puts.drop_last()[i]).0 != code by {
            assert(puts.drop_last()[i] == puts[i]);
        }
        lemma_never_written_absent(m, puts.drop_last(), code);
        assert(puts.last() == puts[puts.len() - 1]);
    }
}

/// Law: `put`s to pairwise-distinct codes do not interfere — after all of
/// them, `get` on each code returns exactly the destination written for that
/// code, with no cross-talk and no lost writes.
pub proof fn lemma_distinct_puts_no_crosstalk(
    m: Map<Seq<char>, Seq<char>>,
    puts: Seq<(Seq<char>, Seq<char>)>,
    i: int,
)
    requires
        forall|p: int, q: int|
            0 <= p < q < puts.len() ==> (#[trigger] puts[p]).0 != (#[trigger] puts[q]).0,
        0 <= i < puts.len(),
    ensures
        after_puts(m, puts).contains_key(puts[i].0),
        after_puts(m, puts)[puts[i].0] == puts[i].1,
    decreases puts.len(),
{
    if i == puts.len() - 1 {
        assert(puts.last() == puts[i]);
    } else {
        assert forall|p: int, q: int|
            0 <= p < q < puts.drop_last().len()
            implies (#[trigger] puts.drop_last()[p]).0 != (#[trigger] puts.drop_last()[q]).0 by {
            assert(puts.drop_last()[p] == puts[p]);
            assert(puts.drop_last()[q] == puts[q]);
        }
        assert(puts.drop_last()[i] == puts[i]);
        lemma_distinct_puts_no_crosstalk(m, puts.drop_last(), i);
        assert(puts.last() == puts[puts.len() - 1]);
        assert(puts[i].0 != puts[puts.len() - 1].0);
    }
}

} // verus!
