//! What a node keeps about its peers and its event channels: the endpoints
//! of its outgoing connections, grouped by peer, and the event channels
//! that feed its event loops, keyed by name.

use std::collections::HashMap;

use rand::seq::SliceRandom;
use rand::thread_rng;
use vstd::prelude::*;
use vstd::string::StringExecFns;

use crate::error::{NetError, Res, NID};

verus! {

broadcast use vstd::std_specs::hash::group_hash_axioms;

/// Picks one element of `v` at random (`rand`'s `SliceRandom::choose` with
/// the thread-local generator): `None` exactly when `v` is empty, otherwise
/// a reference to one of its elements. Which element comes back is left to
/// chance and is not stated.
#[verifier::external_body]
fn choose_random<E>(v: &Vec<E>) -> (r: Option<&E>)
    ensures
        r is None <==> v@.len() == 0,
        r matches Some(e) ==> v@.contains(*e),
{
    v.choose(&mut thread_rng())
}

/// The endpoints of a node's outgoing connections, grouped by the node they
/// lead to.
pub struct _NodeContext<E> {
    name: String,
    out_connection_async: HashMap<NID, Vec<E>>,
}

impl<E> _NodeContext<E> {
    /// The name of the node.
    pub closed spec fn spec_name(&self) -> Seq<char> {
        self.name@
    }

    /// The endpoints that lead to `node_id`, in the order they were added.
    pub closed spec fn endpoints_of(&self, node_id: NID) -> Seq<E> {
        if self.out_connection_async@.contains_key(node_id) {
            self.out_connection_async@[node_id]@
        } else {
            Seq::empty()
        }
    }

    /// An empty table for the node called `name`.
    pub fn new(name: String) -> (r: Self)
        ensures
            r.spec_name() == name@,
            forall|n: NID| #[trigger] r.endpoints_of(n) == Seq::<E>::empty(),
    {
        Self { name, out_connection_async: HashMap::new() }
    }

    /// One of the endpoints that lead to `node_id`, picked at random; the
    /// error `NoSuchElement` when there is none.
    pub fn get_endpoint(&self, node_id: NID) -> (r: Res<&E>)
        ensures
            r is Ok <==> self.endpoints_of(node_id).len() > 0,
            r matches Ok(e) ==> self.endpoints_of(node_id).contains(*e),
            r matches Err(e) ==> e is NoSuchElement,
    {
        match self.out_connection_async.get(&node_id) {
            Some(vec) => {
                let opt = choose_random(vec);
                match opt {
                    Some(e) => {
                        return Ok(e);
                    },
                    None => {},
                }
            },
            None => {},
        }
        Err(NetError::NoSuchElement)
    }

    /// Adds an endpoint that leads to `node_id`; the endpoints of the other
    /// nodes stay as they are.
    pub fn add_endpoint(&mut self, node_id: NID, endpoint: E) -> (r: Res<()>)
        ensures
            r is Ok,
            final(self).spec_name() == old(self).spec_name(),
            final(self).endpoints_of(node_id) == old(self).endpoints_of(node_id).push(endpoint),
            forall|n: NID|
                n != node_id ==> #[trigger] final(self).endpoints_of(n) == old(self).endpoints_of(n),
    {
        match self.out_connection_async.remove(&node_id) {
            Some(v) => {
                let mut v = v;
                v.push(endpoint);
                self.out_connection_async.insert(node_id, v);
            },
            None => {
                self.out_connection_async.insert(node_id, vec![endpoint]);
            },
        }
        Ok(())
    }
}

/// An endpoint added for a node can be reached: once `after` is `before`
/// with `endpoint` added for `node_id`, looking up `node_id` succeeds and
/// may return `endpoint`, and the endpoints of every other node are those
/// of `before`.
pub proof fn lemma_added_endpoint_reachable<E>(
    before: _NodeContext<E>,
    after: _NodeContext<E>,
    node_id: NID,
    endpoint: E,
)
    requires
        after.endpoints_of(node_id) == before.endpoints_of(node_id).push(endpoint),
        forall|n: NID| n != node_id ==> #[trigger] after.endpoints_of(n) == before.endpoints_of(n),
    ensures
        after.endpoints_of(node_id).len() > 0,
        after.endpoints_of(node_id).contains(endpoint),
        forall|n: NID|
            n != node_id ==> (#[trigger] after.endpoints_of(n).len() > 0 <==> before.endpoints_of(
                n,
            ).len() > 0),
{
    assert(after.endpoints_of(node_id)[before.endpoints_of(node_id).len() as int] == endpoint);
}

/// The endpoints that a sequence of additions registers for `node_id`, in
/// the order they were added.
pub open spec fn endpoints_added<E>(adds: Seq<(NID, E)>, node_id: NID) -> Seq<E>
    decreases adds.len(),
{
    if adds.len() == 0 {
        Seq::empty()
    } else {
        let last = adds.last();
        let before = endpoints_added(adds.drop_last(), node_id);
        if last.0 == node_id {
            before.push(last.1)
        } else {
            before
        }
    }
}

/// The endpoints registered for `node_id` by a sequence of additions are
/// exactly the ones added for it: there is one exactly when some addition
/// was for `node_id`, and each is the endpoint of such an addition.
pub proof fn lemma_endpoints_added_members<E>(adds: Seq<(NID, E)>, node_id: NID)
    ensures
        endpoints_added(adds, node_id).len() > 0 <==> exists|i: int|
            0 <= i < adds.len() && (#[trigger] adds[i]).0 == node_id,
        forall|e: E|
            #[trigger] endpoints_added(adds, node_id).contains(e) ==> exists|i: int|
                0 <= i < adds.len() && #[trigger] adds[i] == (node_id, e),
    decreases adds.len(),
{
    if adds.len() > 0 {
        let init = adds.drop_last();
        let last = adds.last();
        lemma_endpoints_added_members(init, node_id);
        let before = endpoints_added(init, node_id);
        if exists|i: int| 0 <= i < init.len() && (#[trigger] init[i]).0 == node_id {
            let i = choose|i: int| 0 <= i < init.len() && (#[trigger] init[i]).0 == node_id;
            assert(adds[i] == init[i]);
        }
        if exists|i: int| 0 <= i < adds.len() && (#[trigger] adds[i]).0 == node_id {
            let i = choose|i: int| 0 <= i < adds.len() && (#[trigger] adds[i]).0 == node_id;
            if i < init.len() {
                assert(init[i] == adds[i]);
            }
        }
        assert forall|e: E| #[trigger] endpoints_added(adds, node_id).contains(e) implies exists|i: int|
            0 <= i < adds.len() && #[trigger] adds[i] == (node_id, e) by {
            if last.0 == node_id {
                let k = choose|k: int|
                    0 <= k < before.push(last.1).len() && before.push(last.1)[k] == e;
                if k == before.len() {
                    assert(adds[adds.len() - 1] == (node_id, e));
                } else {
                    assert(before[k] == e);
                    assert(before.contains(e));
                    let i = choose|i: int| 0 <= i < init.len() && #[trigger] init[i] == (node_id, e);
                    assert(adds[i] == init[i]);
                }
            } else {
                let i = choose|i: int| 0 <= i < init.len() && #[trigger] init[i] == (node_id, e);
                assert(adds[i] == init[i]);
            }
        }
    }
}

/// After any sequence of additions to a fresh table (`tables[0]` fresh,
/// `tables[i + 1]` the table after adding `adds[i]`, as `add_endpoint`
/// states), the endpoints of each node are the ones added for it, in order.
/// So a lookup fails exactly when no endpoint was added for the node, and
/// otherwise returns one that was added for it.
pub proof fn lemma_added_endpoints_sequence<E>(tables: Seq<_NodeContext<E>>, adds: Seq<(NID, E)>)
    requires
        tables.len() == adds.len() + 1,
        forall|n: NID| #[trigger] tables[0].endpoints_of(n) == Seq::<E>::empty(),
        forall|i: int|
            0 <= i < adds.len() ==> #[trigger] tables[i + 1].endpoints_of(adds[i].0) == tables[i].endpoints_of(
                adds[i].0,
            ).push(adds[i].1),
        forall|i: int, n: NID|
            0 <= i < adds.len() && n != adds[i].0 ==> #[trigger] tables[i + 1].endpoints_of(n)
                == tables[i].endpoints_of(n),
    ensures
        forall|n: NID| #[trigger] tables.last().endpoints_of(n) == endpoints_added(adds, n),
        forall|n: NID|
            tables.last().endpoints_of(n).len() > 0 <==> exists|i: int|
                0 <= i < adds.len() && (#[trigger] adds[i]).0 == n,
        forall|n: NID, e: E|
            #[trigger] tables.last().endpoints_of(n).contains(e) ==> exists|i: int|
                0 <= i < adds.len() && #[trigger] adds[i] == (n, e),
    decreases adds.len(),
{
    if adds.len() == 0 {
        assert forall|n: NID| #[trigger] tables.last().endpoints_of(n) == endpoints_added(adds, n) by {
            assert(tables.last() == tables[0]);
        }
    } else {
        let k = adds.len() - 1;
        let init_t = tables.drop_last();
        let init_a = adds.drop_last();
        assert forall|i: int|
            0 <= i < init_a.len() implies #[trigger] init_t[i + 1].endpoints_of(init_a[i].0)
            == init_t[i].endpoints_of(init_a[i].0).push(init_a[i].1) by {
            assert(init_t[i + 1] == tables[i + 1]);
            assert(init_t[i] == tables[i]);
            assert(init_a[i] == adds[i]);
        }
        assert forall|i: int, n: NID|
            0 <= i < init_a.len() && n != init_a[i].0 implies #[trigger] init_t[i + 1].endpoints_of(n)
            == init_t[i].endpoints_of(n) by {
            assert(init_t[i + 1] == tables[i + 1]);
            assert(init_t[i] == tables[i]);
            assert(init_a[i] == adds[i]);
        }
        assert forall|n: NID| #[trigger] init_t[0].endpoints_of(n) == Seq::<E>::empty() by {
            assert(init_t[0] == tables[0]);
        }
        lemma_added_endpoints_sequence(init_t, init_a);
        assert forall|n: NID| #[trigger] tables.last().endpoints_of(n) == endpoints_added(adds, n) by {
            assert(init_t.last() == tables[k]);
            assert(tables.last() == tables[k + 1]);
            assert(init_t.last().endpoints_of(n) == endpoints_added(init_a, n));
            if n == adds[k].0 {
                assert(tables[k + 1].endpoints_of(adds[k].0) == tables[k].endpoints_of(adds[k].0).push(adds[k].1));
            } else {
                assert(tables[k + 1].endpoints_of(n) == tables[k].endpoints_of(n));
            }
        }
    }
    assert forall|n: NID|
        tables.last().endpoints_of(n).len() > 0 <==> exists|i: int|
            0 <= i < adds.len() && (#[trigger] adds[i]).0 == n by {
        lemma_endpoints_added_members(adds, n);
    }
    assert forall|n: NID, e: E|
        #[trigger] tables.last().endpoints_of(n).contains(e) implies exists|i: int|
            0 <= i < adds.len() && #[trigger] adds[i] == (n, e) by {
        lemma_endpoints_added_members(adds, n);
    }
}

/// The decimal digit `d` as a character.
pub open spec fn digit_char(d: nat) -> char
    recommends
        d < 10,
{
    (48 + d) as char
}

/// The decimal representation of `n`, without leading zeros.
pub open spec fn decimal(n: nat) -> Seq<char>
    decreases n,
{
    if n < 10 {
        seq![digit_char(n)]
    } else {
        decimal(n / 10).push(digit_char(n % 10))
    }
}

/// The suffix of the name of a node's default event channel.
pub open spec fn default_suffix() -> Seq<char> {
    seq!['_', 'd', 'e', 'f', 'a', 'u', 'l', 't']
}

/// `n.to_string()`: the `Display` of an unsigned integer writes its
/// decimal digits, without leading zeros.
#[verifier::external_body]
fn u64_to_decimal(n: u64) -> (r: String)
    ensures
        r@ == decimal(n as nat),
{
    n.to_string()
}

/// The name of the default event channel of the node called `node_name`:
/// the node name followed by `_default`.
pub fn default_channel_name(node_name: &String) -> (r: String)
    ensures
        r@ == node_name@ + default_suffix(),
{
    let suffix = "_default";
    proof {
        reveal_strlit("_default");
    }
    assert(suffix@ =~= default_suffix());
    node_name.clone().concat(suffix)
}

/// The name of the event channel called `name` that node `node_id` opens:
/// the decimal digits of the node id, an underscore, and the name.
pub fn event_channel_name(node_id: NID, name: &String) -> (r: String)
    ensures
        r@ == decimal(node_id as nat) + seq!['_'] + name@,
{
    let sep = "_";
    proof {
        reveal_strlit("_");
    }
    assert(sep@ =~= seq!['_']);
    u64_to_decimal(node_id).concat(sep).concat(name.as_str())
}

/// The event channels of a node, keyed by their names; no name occurs twice.
pub struct ChannelSet<C> {
    entries: Vec<(String, C)>,
}

impl<C> ChannelSet<C> {
    /// The names of the channels, in the order they were registered.
    pub closed spec fn names(&self) -> Seq<Seq<char>> {
        self.entries@.map_values(|e: (String, C)| e.0@)
    }

    /// The channels, in the order they were registered.
    pub closed spec fn channels(&self) -> Seq<C> {
        self.entries@.map_values(|e: (String, C)| e.1)
    }

    #[verifier::type_invariant]
    closed spec fn names_unique(&self) -> bool {
        forall|i: int, j: int|
            0 <= i < j < self.entries@.len() ==> #[trigger] self.entries@[i].0@
                != #[trigger] self.entries@[j].0@
    }

    /// An empty set.
    pub fn new() -> (r: Self)
        ensures
            r.names() == Seq::<Seq<char>>::empty(),
            r.channels() == Seq::<C>::empty(),
    {
        let r = ChannelSet { entries: Vec::new() };
        assert(r.names() =~= Seq::<Seq<char>>::empty());
        assert(r.channels() =~= Seq::<C>::empty());
        r
    }

    /// Whether a channel called `name` is registered.
    pub fn contains_key(&self, name: &String) -> (r: bool)
        ensures
            r == self.names().contains(name@),
    {
        let mut i: usize = 0;
        while i < self.entries.len()
            invariant
                0 <= i <= self.entries@.len(),
                forall|j: int| 0 <= j < i ==> #[trigger] self.entries@[j].0@ != name@,
            decreases self.entries@.len() - i,
        {
            if self.entries[i].0 == *name {
                assert(self.names()[i as int] == name@);
                return true;
            }
            i = i + 1;
        }
        assert forall|k: int| 0 <= k < self.names().len() implies #[trigger] self.names()[k]
            != name@ by {
            assert(self.names()[k] == self.entries@[k].0@);
        }
        false
    }

    /// Registers `channel` under `name`; the error `ExistingSuchElement`, and
    /// the set unchanged, when a channel of that name is already registered.
    pub fn register(&mut self, name: String, channel: C) -> (r: Res<()>)
        ensures
            r is Ok <==> !old(self).names().contains(name@),
            r is Ok ==> final(self).names() == old(self).names().push(name@)
                && final(self).channels() == old(self).channels().push(channel),
            r matches Err(e) ==> e is ExistingSuchElement
                && final(self).names() == old(self).names()
                && final(self).channels() == old(self).channels(),
    {
        proof {
            use_type_invariant(&*self);
        }
        if self.contains_key(&name) {
            return Err(NetError::ExistingSuchElement);
        }
        let ghost old_names = self.names();
        let ghost old_channels = self.channels();
        let ghost old_entries = self.entries@;
        let mut entries = Vec::new();
        std::mem::swap(&mut entries, &mut self.entries);
        assert(entries@ == old_entries);
        proof {
            assert forall|i: int| 0 <= i < old_entries.len() implies #[trigger] old_entries[i].0@
                != name@ by {
                assert(old_names[i] == old_entries[i].0@);
            }
        }
        entries.push((name, channel));
        self.entries = entries;
        assert(self.names() =~= old_names.push(name@));
        assert(self.channels() =~= old_channels.push(channel));
        Ok(())
    }

    /// Takes every channel out of the set, in registration order, leaving it
    /// empty.
    pub fn drain(&mut self) -> (r: Vec<C>)
        ensures
            r@ == old(self).channels(),
            final(self).names() == Seq::<Seq<char>>::empty(),
            final(self).channels() == Seq::<C>::empty(),
    {
        let mut entries = Vec::new();
        std::mem::swap(&mut entries, &mut self.entries);
        assert(self.names() =~= Seq::<Seq<char>>::empty());
        assert(self.channels() =~= Seq::<C>::empty());
        let ghost all = entries@;
        let mut out: Vec<C> = Vec::new();
        let mut rest = entries;
        let mut taken: Vec<C> = Vec::new();
        while rest.len() > 0
            invariant
                all.len() == taken@.len() + rest@.len(),
                forall|k: int| 0 <= k < rest@.len() ==> #[trigger] rest@[k] == all[k],
                forall|k: int| 0 <= k < taken@.len() ==> #[trigger] taken@[k] == all[all.len() - 1 - k].1,
            decreases rest@.len(),
        {
            let e = rest.pop().unwrap();
            taken.push(e.1);
        }
        while taken.len() > 0
            invariant
                all.len() == taken@.len() + out@.len(),
                forall|k: int| 0 <= k < taken@.len() ==> #[trigger] taken@[k] == all[all.len() - 1 - k].1,
                forall|k: int| 0 <= k < out@.len() ==> #[trigger] out@[k] == all[k].1,
            decreases taken@.len(),
        {
            let c = taken.pop().unwrap();
            out.push(c);
        }
        assert(out@ =~= all.map_values(|e: (String, C)| e.1));
        out
    }
}

/// A name holds at most one channel: once `name` was registered into
/// `before` giving `after`, `name` is taken in `after`, so that registering
/// it again fails and leaves the set as it is.
pub proof fn lemma_registered_name_taken<C>(before: ChannelSet<C>, after: ChannelSet<C>, name: Seq<char>)
    requires
        after.names() == before.names().push(name),
    ensures
        after.names().contains(name),
{
    assert(after.names()[before.names().len() as int] == name);
}

} // verus!
