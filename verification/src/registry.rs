//! The registry of running compositors, keyed by the Wayland socket name each
//! one listens on. A secondary GStreamer element finds the compositor of the
//! primary element here, by name or as the one most recently registered.
use vstd::prelude::*;

verus! {

/// What a registry holds: the sender of each compositor by socket name, and
/// the name of the active compositor.
pub struct RegistryModel<S> {
    pub senders: Map<Seq<char>, S>,
    pub active: Option<Seq<char>>,
}

impl<S> RegistryModel<S> {
    /// The model of a registry with no compositor.
    pub open spec fn empty() -> Self {
        RegistryModel { senders: Map::empty(), active: None }
    }

    /// The active name, when there is one, is registered; there is none
    /// exactly when no compositor is registered.
    pub open spec fn wf(self) -> bool {
        match self.active {
            Some(a) => self.senders.dom().contains(a),
            None => self.senders.dom() =~= Set::empty(),
        }
    }

    /// The sender registered under `name`.
    pub open spec fn lookup(self, name: Seq<char>) -> Option<S> {
        if self.senders.dom().contains(name) {
            Some(self.senders[name])
        } else {
            None
        }
    }

    /// The sender of the active compositor.
    pub open spec fn lookup_active(self) -> Option<S> {
        match self.active {
            Some(a) => self.lookup(a),
            None => None,
        }
    }

    /// The registry after `name` was registered with `sender`: the sender
    /// replaces any earlier one of that name, and `name` becomes active.
    pub open spec fn after_register(self, name: Seq<char>, sender: S) -> Self {
        RegistryModel { senders: self.senders.insert(name, sender), active: Some(name) }
    }

    /// `next` is a registry that unregistering `name` may leave: `name` is
    /// gone, and where it was active, any remaining compositor (or none, when
    /// none remains) becomes active; otherwise the active one stays.
    pub open spec fn unregister_allows(self, name: Seq<char>, next: Self) -> bool {
        &&& next.senders == self.senders.remove(name)
        &&& if self.active == Some(name) {
            match next.active {
                Some(a) => next.senders.dom().contains(a),
                None => next.senders.dom() =~= Set::empty(),
            }
        } else {
            next.active == self.active
        }
    }
}

/// A lookup after a registration gives back the registered sender, and the
/// registered compositor is the active one.
pub proof fn law_lookup_after_register<S>(m: RegistryModel<S>, name: Seq<char>, sender: S)
    ensures
        m.after_register(name, sender).lookup(name) == Some(sender),
        m.after_register(name, sender).lookup_active() == Some(sender),
{
}

/// Registering one name leaves the senders of all other names as they were.
pub proof fn law_register_keeps_others<S>(
    m: RegistryModel<S>,
    name: Seq<char>,
    other: Seq<char>,
    sender: S,
)
    requires
        other != name,
    ensures
        m.after_register(name, sender).lookup(other) == m.lookup(other),
{
}

/// After unregistering a name, a lookup of it finds nothing, and every other
/// name finds what it found before.
pub proof fn law_lookup_after_unregister<S>(
    m: RegistryModel<S>,
    name: Seq<char>,
    next: RegistryModel<S>,
    other: Seq<char>,
)
    requires
        m.unregister_allows(name, next),
    ensures
        next.lookup(name) is None,
        other != name ==> next.lookup(other) == m.lookup(other),
{
}

/// Registering and unregistering keep a registry well formed.
pub proof fn law_operations_keep_wf<S>(
    m: RegistryModel<S>,
    name: Seq<char>,
    sender: S,
    next: RegistryModel<S>,
)
    requires
        m.wf(),
    ensures
        m.after_register(name, sender).wf(),
        m.unregister_allows(name, next) ==> next.wf(),
{
    if m.unregister_allows(name, next) && m.active != Some(name) {
        if let Some(a) = m.active {
            assert(next.senders.dom().contains(a));
        } else {
            assert(next.senders.dom() =~= Set::empty());
        }
    }
}

/// In a well formed registry there is an active compositor exactly when some
/// compositor is registered.
pub proof fn law_active_iff_registered<S>(m: RegistryModel<S>)
    requires
        m.wf(),
    ensures
        m.lookup_active() is Some <==> exists|n: Seq<char>| m.senders.dom().contains(n),
{
    if let Some(a) = m.active {
        assert(m.senders.dom().contains(a));
    } else {
        assert forall|n: Seq<char>| !m.senders.dom().contains(n) by {
            assert(!Set::<Seq<char>>::empty().contains(n));
        }
    }
}

/// Unregistering a compositor that is not the active one leaves the active
/// compositor in place.
pub proof fn law_unregister_other_keeps_active<S>(
    m: RegistryModel<S>,
    name: Seq<char>,
    next: RegistryModel<S>,
)
    requires
        m.unregister_allows(name, next),
        m.active != Some(name),
    ensures
        next.lookup_active() == m.lookup_active(),
{
}

/// Registering a new name and unregistering it again leaves the same
/// senders registered.
pub proof fn law_register_then_unregister<S>(
    m: RegistryModel<S>,
    name: Seq<char>,
    sender: S,
    next: RegistryModel<S>,
)
    requires
        m.lookup(name) is None,
        m.after_register(name, sender).unregister_allows(name, next),
    ensures
        next.senders == m.senders,
{
    assert(next.senders =~= m.senders);
}

/// The key of the `i`-th entry.
pub open spec fn entry_key<S>(entries: Seq<(String, S)>, i: int) -> Seq<char> {
    entries[i].0@
}

/// No two entries share a name.
pub open spec fn keys_distinct<S>(entries: Seq<(String, S)>) -> bool {
    forall|i: int, j: int|
        0 <= i < entries.len() && 0 <= j < entries.len() && i != j ==> #[trigger] entry_key(
            entries,
            i,
        ) != #[trigger] entry_key(entries, j)
}

/// Some entry has the name `k`.
pub open spec fn has_key<S>(entries: Seq<(String, S)>, k: Seq<char>) -> bool {
    exists|i: int| 0 <= i < entries.len() && #[trigger] entry_key(entries, i) == k
}

/// The map from name to sender that a list of entries stands for.
pub open spec fn entries_map<S>(entries: Seq<(String, S)>) -> Map<Seq<char>, S> {
    Map::new(
        |k: Seq<char>| has_key(entries, k),
        |k: Seq<char>|
            entries[choose|i: int| 0 <= i < entries.len() && #[trigger] entry_key(entries, i) == k].1,
    )
}

proof fn lemma_entry_in_map<S>(entries: Seq<(String, S)>, i: int)
    requires
        keys_distinct(entries),
        0 <= i < entries.len(),
    ensures
        entries_map(entries).dom().contains(entry_key(entries, i)),
        entries_map(entries)[entry_key(entries, i)] == entries[i].1,
{
    let k = entry_key(entries, i);
    assert(has_key(entries, k));
    let j = choose|j: int| 0 <= j < entries.len() && #[trigger] entry_key(entries, j) == k;
    assert(j == i);
}

proof fn lemma_map_after_push<S>(entries: Seq<(String, S)>, e: (String, S))
    requires
        keys_distinct(entries),
        !has_key(entries, e.0@),
    ensures
        keys_distinct(entries.push(e)),
        entries_map(entries.push(e)) == entries_map(entries).insert(e.0@, e.1),
{
    let es2 = entries.push(e);
    assert forall|i: int, j: int|
        0 <= i < es2.len() && 0 <= j < es2.len() && i != j implies #[trigger] entry_key(es2, i)
        != #[trigger] entry_key(es2, j) by {
        if i < entries.len() && j < entries.len() {
            assert(entry_key(es2, i) == entry_key(entries, i));
            assert(entry_key(es2, j) == entry_key(entries, j));
        } else if i < entries.len() {
            assert(entry_key(es2, i) == entry_key(entries, i));
        } else {
            assert(entry_key(es2, j) == entry_key(entries, j));
        }
    }
    let m1 = entries_map(es2);
    let m2 = entries_map(entries).insert(e.0@, e.1);
    assert forall|k: Seq<char>| m1.dom().contains(k) <==> m2.dom().contains(k) by {
        if m1.dom().contains(k) {
            let i = choose|i: int| 0 <= i < es2.len() && #[trigger] entry_key(es2, i) == k;
            if i < entries.len() {
                assert(entry_key(entries, i) == k);
            }
        }
        if entries_map(entries).dom().contains(k) {
            let i = choose|i: int| 0 <= i < entries.len() && #[trigger] entry_key(entries, i) == k;
            assert(entry_key(es2, i) == k);
        }
        if k == e.0@ {
            assert(entry_key(es2, entries.len() as int) == k);
        }
    }
    assert forall|k: Seq<char>| #[trigger] m1.dom().contains(k) implies m1[k] == m2[k] by {
        let i = choose|i: int| 0 <= i < es2.len() && #[trigger] entry_key(es2, i) == k;
        lemma_entry_in_map(es2, i);
        if i < entries.len() {
            assert(entry_key(entries, i) == k);
            lemma_entry_in_map(entries, i);
        }
    }
    assert(m1 =~= m2);
}

proof fn lemma_map_after_remove<S>(entries: Seq<(String, S)>, i: int)
    requires
        keys_distinct(entries),
        0 <= i < entries.len(),
    ensures
        keys_distinct(entries.remove(i)),
        !has_key(entries.remove(i), entry_key(entries, i)),
        entries_map(entries.remove(i)) == entries_map(entries).remove(entry_key(entries, i)),
{
    let es2 = entries.remove(i);
    let gone = entry_key(entries, i);
    // index in `es2` to index in `entries`
    assert forall|j: int| 0 <= j < es2.len() implies #[trigger] entry_key(es2, j) == entry_key(
        entries,
        if j < i { j } else { j + 1 },
    ) by {}
    assert forall|a: int, b: int|
        0 <= a < es2.len() && 0 <= b < es2.len() && a != b implies #[trigger] entry_key(es2, a)
        != #[trigger] entry_key(es2, b) by {
        assert(entry_key(es2, a) == entry_key(entries, if a < i { a } else { a + 1 }));
        assert(entry_key(es2, b) == entry_key(entries, if b < i { b } else { b + 1 }));
    }
    if has_key(es2, gone) {
        let j = choose|j: int| 0 <= j < es2.len() && #[trigger] entry_key(es2, j) == gone;
        assert(entry_key(es2, j) == entry_key(entries, if j < i { j } else { j + 1 }));
    }
    let m1 = entries_map(es2);
    let m2 = entries_map(entries).remove(gone);
    assert forall|k: Seq<char>| m1.dom().contains(k) <==> m2.dom().contains(k) by {
        if m1.dom().contains(k) {
            let j = choose|j: int| 0 <= j < es2.len() && #[trigger] entry_key(es2, j) == k;
            assert(entry_key(es2, j) == entry_key(entries, if j < i { j } else { j + 1 }));
        }
        if m2.dom().contains(k) {
            let j = choose|j: int| 0 <= j < entries.len() && #[trigger] entry_key(entries, j) == k;
            assert(j != i);
            let j2 = if j < i { j } else { j - 1 };
            assert(entry_key(es2, j2) == entry_key(entries, if j2 < i { j2 } else { j2 + 1 }));
        }
    }
    assert forall|k: Seq<char>| #[trigger] m1.dom().contains(k) implies m1[k] == m2[k] by {
        let j = choose|j: int| 0 <= j < es2.len() && #[trigger] entry_key(es2, j) == k;
        let jj = if j < i { j } else { j + 1 };
        assert(entry_key(es2, j) == entry_key(entries, jj));
        lemma_entry_in_map(es2, j);
        lemma_entry_in_map(entries, jj);
    }
    assert(m1 =~= m2);
}

/// The compositors that run in this process, each under its Wayland socket
/// name, and the one that registered last and is still registered (or
/// another one that remains, once that one has left).
pub struct CompositorRegistry<S> {
    entries: Vec<(String, S)>,
    active: Option<String>,
}

impl<S> View for CompositorRegistry<S> {
    type V = RegistryModel<S>;

    closed spec fn view(&self) -> RegistryModel<S> {
        RegistryModel {
            senders: entries_map(self.entries@),
            active: match self.active {
                Some(a) => Some(a@),
                None => None,
            },
        }
    }
}

impl<S> CompositorRegistry<S> {
    #[verifier::type_invariant]
    closed spec fn inv(self) -> bool {
        &&& keys_distinct(self.entries@)
        &&& self@.wf()
    }

    /// A registry with no compositor.
    pub fn new() -> (reg: Self)
        ensures
            reg@ == RegistryModel::<S>::empty(),
            reg@.wf(),
    {
        let reg = CompositorRegistry { entries: Vec::new(), active: None };
        assert(reg@.senders =~= Map::empty());
        reg
    }
}

/// Where `name` stands among the entries.
fn position_of<S>(entries: &Vec<(String, S)>, name: &String) -> (res: Option<usize>)
    ensures
        match res {
            Some(i) => i < entries@.len() && entry_key(entries@, i as int) == name@,
            None => !has_key(entries@, name@),
        },
{
    let mut i: usize = 0;
    while i < entries.len()
        invariant
            i <= entries@.len(),
            forall|j: int| 0 <= j < i ==> #[trigger] entry_key(entries@, j) != name@,
        decreases entries@.len() - i,
    {
        if entries[i].0 == *name {
            return Some(i);
        }
        i = i + 1;
    }
    None
}

/// Registers a compositor's command sender under its Wayland socket name; it
/// replaces any sender of that name and becomes the active compositor.
pub fn register_compositor<S>(registry: &mut CompositorRegistry<S>, socket_name: &str, sender: S)
    ensures
        old(registry)@.wf(),
        final(registry)@.wf(),
        final(registry)@ == old(registry)@.after_register(socket_name@, sender),
{
    let mut old_reg = CompositorRegistry::new();
    std::mem::swap(registry, &mut old_reg);
    proof {
        use_type_invariant(&old_reg);
    }
    let CompositorRegistry { entries: mut entries, active: _ } = old_reg;
    let ghost es0 = entries@;
    let name = String::from_str(socket_name);
    match position_of(&entries, &name) {
        Some(i) => {
            proof {
                lemma_map_after_remove(es0, i as int);
            }
            entries.remove(i);
        },
        None => {},
    }
    let ghost es1 = entries@;
    let key = name.clone();
    proof {
        lemma_map_after_push(es1, (key, sender));
    }
    entries.push((key, sender));
    assert(entries_map(entries@) =~= entries_map(es0).insert(socket_name@, sender));
    *registry = CompositorRegistry { entries, active: Some(name) };
}

/// Unregisters the compositor of a socket name when it shuts down. Where it
/// was the active compositor, another registered one (if any) becomes active.
pub fn unregister_compositor<S>(registry: &mut CompositorRegistry<S>, socket_name: &str)
    ensures
        old(registry)@.wf(),
        final(registry)@.wf(),
        old(registry)@.unregister_allows(socket_name@, final(registry)@),
{
    let mut old_reg = CompositorRegistry::new();
    std::mem::swap(registry, &mut old_reg);
    proof {
        use_type_invariant(&old_reg);
    }
    let ghost old_view = old_reg@;
    let CompositorRegistry { entries: mut entries, active } = old_reg;
    let ghost es0 = entries@;
    let name = String::from_str(socket_name);
    match position_of(&entries, &name) {
        Some(i) => {
            proof {
                lemma_map_after_remove(es0, i as int);
            }
            entries.remove(i);
        },
        None => {
            assert(entries_map(es0).remove(name@) =~= entries_map(es0));
        },
    }
    assert(entries_map(entries@) == old_view.senders.remove(socket_name@));
    let new_active = match active {
        Some(a) => {
            if a == name {
                if entries.len() > 0 {
                    let first = entries[0].0.clone();
                    proof {
                        lemma_map_after_remove(es0, 0);
                        assert(has_key(entries@, entry_key(entries@, 0)));
                    }
                    Some(first)
                } else {
                    assert(entries_map(entries@).dom() =~= Set::empty());
                    None
                }
            } else {
                Some(a)
            }
        },
        None => None,
    };
    *registry = CompositorRegistry { entries, active: new_active };
}

/// The command sender registered under a Wayland socket name.
pub fn lookup_compositor<'a, S>(registry: &'a CompositorRegistry<S>, socket_name: &str) -> (res:
    Option<&'a S>)
    ensures
        registry@.wf(),
        match res {
            Some(s) => registry@.lookup(socket_name@) == Some(*s),
            None => registry@.lookup(socket_name@) is None,
        },
{
    proof {
        use_type_invariant(registry);
    }
    let name = String::from_str(socket_name);
    match position_of(&registry.entries, &name) {
        Some(i) => {
            proof {
                lemma_entry_in_map(registry.entries@, i as int);
            }
            Some(&registry.entries[i].1)
        },
        None => None,
    }
}

/// The command sender of the active compositor: the one a secondary element
/// attaches to when no compositor name is configured.
pub fn lookup_active_compositor<'a, S>(registry: &'a CompositorRegistry<S>) -> (res: Option<&'a S>)
    ensures
        registry@.wf(),
        match res {
            Some(s) => registry@.lookup_active() == Some(*s),
            None => registry@.lookup_active() is None,
        },
{
    proof {
        use_type_invariant(registry);
    }
    match &registry.active {
        Some(a) => match position_of(&registry.entries, a) {
            Some(i) => {
                proof {
                    lemma_entry_in_map(registry.entries@, i as int);
                }
                Some(&registry.entries[i].1)
            },
            None => None,
        },
        None => None,
    }
}

} // verus!
