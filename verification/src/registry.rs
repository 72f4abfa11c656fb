//! The keybind registry: the configuration, and for every hotkey identifier
//! that the operating system assigned, the index of the binding it belongs
//! to.

use crate::config::Config;
use crate::int_map;
use crate::keys::KeyBind;
use nohash_hasher::IntMap;
use vstd::prelude::*;

verus! {

/// The identifier under which the binding at `index` was registered: the one
/// the operating system answered with, where the binding is valid and an
/// answer for it is there.
pub open spec fn accepted(keybinds: Seq<KeyBind>, outcomes: Seq<Option<usize>>, index: int)
    -> Option<usize> {
    if 0 <= index < keybinds.len() && index < outcomes.len() && keybinds[index].valid() {
        outcomes[index]
    } else {
        None
    }
}

/// The identifiers of the first `n` bindings, each leading to its binding's
/// index. Where the operating system gave one identifier twice, it leads to
/// the later binding.
pub open spec fn registered_upto(keybinds: Seq<KeyBind>, outcomes: Seq<Option<usize>>, n: nat)
    -> Map<usize, usize>
    decreases n,
{
    if n == 0 {
        Map::empty()
    } else {
        let before = registered_upto(keybinds, outcomes, (n - 1) as nat);
        match accepted(keybinds, outcomes, n - 1) {
            Some(id) => before.insert(id, (n - 1) as usize),
            None => before,
        }
    }
}

/// The identifiers of all bindings, each leading to its binding's index.
pub open spec fn registered(keybinds: Seq<KeyBind>, outcomes: Seq<Option<usize>>) -> Map<
    usize,
    usize,
> {
    registered_upto(keybinds, outcomes, keybinds.len())
}

/// The configuration together with the identifiers of its registered
/// bindings.
pub struct KeyBindRegistry {
    cfg: Config,
    map: IntMap<usize, usize>,
}

impl KeyBindRegistry {
    /// Every identifier leads to a binding that is there.
    #[verifier::type_invariant]
    spec fn wf(self) -> bool {
        forall|id: usize| #[trigger]
            self.map@.contains_key(id) ==> self.map@[id] < self.cfg.keybinds@.len()
    }

    /// The configuration that the registry was made from.
    pub closed spec fn config(self) -> Config {
        self.cfg
    }

    /// From each registered identifier to the index of its binding.
    pub closed spec fn bindings(self) -> Map<usize, usize> {
        self.map@
    }

    /// The binding that `hotkey_id` belongs to, if it was registered.
    pub open spec fn spec_resolve(self, hotkey_id: usize) -> Option<KeyBind> {
        if self.bindings().contains_key(hotkey_id) {
            Some(self.config().keybinds@[self.bindings()[hotkey_id] as int])
        } else {
            None
        }
    }

    /// The registry of `cfg`, where `outcomes` holds at each binding's index
    /// what the operating system answered to that binding's request: the
    /// identifier it assigned, or `None` where it refused or was not asked.
    /// An answer for a binding that is not valid counts for nothing; so does
    /// one beyond the last binding.
    pub fn new(cfg: Config, outcomes: &Vec<Option<usize>>) -> (r: Self)
        ensures
            r.config() == cfg,
            r.bindings() == registered(cfg.keybinds@, outcomes@),
    {
        let map = Self::register(&cfg, outcomes);
        Self { cfg, map }
    }

    /// Goes through the bindings in order and files each accepted identifier
    /// under its binding's index.
    fn register(cfg: &Config, outcomes: &Vec<Option<usize>>) -> (map: IntMap<usize, usize>)
        ensures
            map@ == registered(cfg.keybinds@, outcomes@),
            forall|id: usize| #[trigger] map@.contains_key(id) ==> map@[id] < cfg.keybinds@.len(),
    {
        let n = cfg.keybinds.len();
        let mut map = int_map::with_capacity(
            if n <= int_map::MAX_CAPACITY {
                n
            } else {
                int_map::MAX_CAPACITY
            },
        );
        let mut index: usize = 0;
        while index < n
            invariant
                index <= n,
                n == cfg.keybinds@.len(),
                map@ == registered_upto(cfg.keybinds@, outcomes@, index as nat),
                forall|id: usize| #[trigger] map@.contains_key(id) ==> map@[id] < index,
            decreases n - index,
        {
            if index < outcomes.len() {
                if let Some(id) = outcomes[index] {
                    if cfg.keybinds[index].hotkey().is_ok() {
                        int_map::insert(&mut map, id, index);
                    }
                }
            }
            index += 1;
        }
        map
    }

    /// The margin of the configuration.
    pub fn margin(&self) -> (r: u8)
        ensures
            r == self.config().margin,
    {
        self.cfg.margin
    }

    /// The bindings of the configuration, registered or not, each at its
    /// index.
    pub fn keybinds(&self) -> (r: &Vec<KeyBind>)
        ensures
            *r == self.config().keybinds,
    {
        &self.cfg.keybinds
    }

    /// How many identifiers are registered.
    pub fn len(&self) -> (r: usize)
        ensures
            r == self.bindings().len(),
    {
        int_map::len(&self.map)
    }

    /// The index of the binding that `hotkey_id` belongs to, if it was
    /// registered.
    pub fn binding_index(&self, hotkey_id: usize) -> (r: Option<usize>)
        ensures
            r == (if self.bindings().contains_key(hotkey_id) {
                Some(self.bindings()[hotkey_id])
            } else {
                None
            }),
            r matches Some(index) ==> index < self.config().keybinds@.len(),
    {
        proof {
            use_type_invariant(self);
        }
        int_map::get(&self.map, hotkey_id)
    }

    /// The binding that `hotkey_id` belongs to, if it was registered.
    pub fn resolve(&self, hotkey_id: usize) -> (r: Option<&KeyBind>)
        ensures
            match r {
                Some(keybind) => self.spec_resolve(hotkey_id) == Some(*keybind),
                None => self.spec_resolve(hotkey_id) is None,
            },
    {
        proof {
            use_type_invariant(self);
        }
        match int_map::get(&self.map, hotkey_id) {
            Some(index) => Some(&self.cfg.keybinds[index]),
            None => None,
        }
    }
}

/// Where the first `n` bindings are concerned: an identifier leads to the
/// last binding that was registered under it, and every identifier that a
/// binding was registered under leads somewhere.
proof fn lemma_registered_upto(keybinds: Seq<KeyBind>, outcomes: Seq<Option<usize>>, n: nat)
    requires
        n <= keybinds.len() <= usize::MAX,
    ensures
        registered_upto(keybinds, outcomes, n).dom().finite(),
        forall|id: usize| #[trigger]
            registered_upto(keybinds, outcomes, n).contains_key(id) ==> {
                let index = registered_upto(keybinds, outcomes, n)[id];
                &&& index < n
                &&& accepted(keybinds, outcomes, index as int) == Some(id)
                &&& forall|later: int|
                    index < later < n ==> #[trigger] accepted(keybinds, outcomes, later) != Some(
                        id,
                    )
            },
        forall|index: int|
            0 <= index < n && (#[trigger] accepted(keybinds, outcomes, index)) is Some
                ==> registered_upto(keybinds, outcomes, n).contains_key(
                accepted(keybinds, outcomes, index)->0,
            ),
    decreases n,
{
    if n > 0 {
        lemma_registered_upto(keybinds, outcomes, (n - 1) as nat);
    }
}

/// Only valid bindings are registered. Every identifier in the registry leads
/// to a binding that is valid and that the operating system registered under
/// that very identifier; so the index of a binding that is not valid, or that
/// was refused, occurs nowhere, and no two identifiers lead to one binding.
pub proof fn lemma_registered_only_valid(keybinds: Seq<KeyBind>, outcomes: Seq<Option<usize>>)
    requires
        keybinds.len() <= usize::MAX,
    ensures
        registered(keybinds, outcomes).dom().finite(),
        forall|id: usize| #[trigger]
            registered(keybinds, outcomes).contains_key(id) ==> {
                let index = registered(keybinds, outcomes)[id] as int;
                &&& 0 <= index < keybinds.len()
                &&& keybinds[index].valid()
                &&& index < outcomes.len()
                &&& outcomes[index] == Some(id)
            },
        forall|a: usize, b: usize|
            #![trigger registered(keybinds, outcomes)[a], registered(keybinds, outcomes)[b]]
            registered(keybinds, outcomes).contains_key(a) && registered(
                keybinds,
                outcomes,
            ).contains_key(b) && registered(keybinds, outcomes)[a] == registered(
                keybinds,
                outcomes,
            )[b] ==> a == b,
{
    lemma_registered_upto(keybinds, outcomes, keybinds.len());
}

/// Every binding that is valid and was registered can be found again: its
/// identifier is in the registry, and leads to it unless a later binding was
/// registered under the same identifier.
pub proof fn lemma_registered_found(
    keybinds: Seq<KeyBind>,
    outcomes: Seq<Option<usize>>,
    index: int,
)
    requires
        keybinds.len() <= usize::MAX,
        0 <= index < keybinds.len(),
        index < outcomes.len(),
        keybinds[index].valid(),
        outcomes[index] is Some,
    ensures
        registered(keybinds, outcomes).contains_key(outcomes[index]->0),
        registered(keybinds, outcomes)[outcomes[index]->0] >= index,
        (forall|later: int|
            index < later < keybinds.len() && later < outcomes.len() ==> outcomes[later]
                != outcomes[index]) ==> registered(keybinds, outcomes)[outcomes[index]->0]
            == index,
{
    lemma_registered_upto(keybinds, outcomes, keybinds.len());
    let id = outcomes[index]->0;
    assert(accepted(keybinds, outcomes, index) == Some(id));
    let found = registered(keybinds, outcomes)[id] as int;
    if found < index {
        assert(accepted(keybinds, outcomes, index) != Some(id));
    }
    if forall|later: int|
        index < later < keybinds.len() && later < outcomes.len() ==> outcomes[later]
            != outcomes[index] {
        if found > index {
            assert(accepted(keybinds, outcomes, found) == Some(id));
        }
    }
}

/// Where all `n` bindings are valid and the operating system registered each
/// under an identifier of its own, the registry has exactly `n` entries, and
/// the identifier of each binding leads to that binding's index.
pub proof fn lemma_registered_all(keybinds: Seq<KeyBind>, outcomes: Seq<Option<usize>>)
    requires
        keybinds.len() <= usize::MAX,
        outcomes.len() == keybinds.len(),
        forall|i: int| 0 <= i < keybinds.len() ==> (#[trigger] keybinds[i]).valid(),
        forall|i: int| 0 <= i < outcomes.len() ==> (#[trigger] outcomes[i]) is Some,
        forall|i: int, j: int|
            0 <= i < j < outcomes.len() ==> #[trigger] outcomes[i] != #[trigger] outcomes[j],
    ensures
        registered(keybinds, outcomes).dom().finite(),
        registered(keybinds, outcomes).len() == keybinds.len(),
        forall|i: int|
            0 <= i < keybinds.len() ==> registered(keybinds, outcomes).contains_key(
                (#[trigger] outcomes[i])->0,
            ) && registered(keybinds, outcomes)[outcomes[i]->0] == i,
{
    lemma_registered_count(keybinds, outcomes, keybinds.len());
    assert forall|i: int| 0 <= i < keybinds.len() implies registered(
        keybinds,
        outcomes,
    ).contains_key((#[trigger] outcomes[i])->0) && registered(keybinds, outcomes)[outcomes[i]->0]
        == i by {
        lemma_registered_found(keybinds, outcomes, i);
    }
}

/// With all bindings valid and registered under identifiers of their own, the
/// first `n` of them make `n` entries.
proof fn lemma_registered_count(keybinds: Seq<KeyBind>, outcomes: Seq<Option<usize>>, n: nat)
    requires
        n <= keybinds.len() <= usize::MAX,
        outcomes.len() == keybinds.len(),
        forall|i: int| 0 <= i < keybinds.len() ==> (#[trigger] keybinds[i]).valid(),
        forall|i: int| 0 <= i < outcomes.len() ==> (#[trigger] outcomes[i]) is Some,
        forall|i: int, j: int|
            0 <= i < j < outcomes.len() ==> #[trigger] outcomes[i] != #[trigger] outcomes[j],
    ensures
        registered_upto(keybinds, outcomes, n).dom().finite(),
        registered_upto(keybinds, outcomes, n).len() == n,
    decreases n,
{
    if n > 0 {
        let before = registered_upto(keybinds, outcomes, (n - 1) as nat);
        lemma_registered_count(keybinds, outcomes, (n - 1) as nat);
        lemma_registered_upto(keybinds, outcomes, (n - 1) as nat);
        let id = outcomes[n - 1]->0;
        assert(accepted(keybinds, outcomes, n - 1) == Some(id));
        if before.contains_key(id) {
            let earlier = before[id] as int;
            assert(accepted(keybinds, outcomes, earlier) == Some(id));
            assert(outcomes[earlier] != outcomes[n - 1]);
        }
        assert(registered_upto(keybinds, outcomes, n).dom() =~= before.dom().insert(id));
    }
}

} // verus!
