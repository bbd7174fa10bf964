use super::{CustomTypeKind, Ty};
use vstd::prelude::*;
use vstd::utf8::*;

verus! {

broadcast use vstd::utf8::encode_utf8_decode_utf8;

/// Byte-wise lexicographic order, the order of `str` and `String` in Rust.
pub open spec fn bytes_lt(a: Seq<u8>, b: Seq<u8>) -> bool
    decreases a.len(),
{
    if a.len() == 0 {
        b.len() > 0
    } else if b.len() == 0 {
        false
    } else if a[0] != b[0] {
        a[0] < b[0]
    } else {
        bytes_lt(a.drop_first(), b.drop_first())
    }
}

/// The order on names: that of their UTF-8 encodings.
pub open spec fn name_lt(a: Seq<char>, b: Seq<char>) -> bool {
    bytes_lt(encode_utf8(a), encode_utf8(b))
}

proof fn lemma_bytes_lt_irreflexive(a: Seq<u8>)
    ensures
        !bytes_lt(a, a),
    decreases a.len(),
{
    if a.len() > 0 {
        lemma_bytes_lt_irreflexive(a.drop_first());
    }
}

proof fn lemma_bytes_lt_total(a: Seq<u8>, b: Seq<u8>)
    ensures
        a =~= b || bytes_lt(a, b) || bytes_lt(b, a),
    decreases a.len(),
{
    if a.len() > 0 && b.len() > 0 && a[0] == b[0] {
        lemma_bytes_lt_total(a.drop_first(), b.drop_first());
        if a.drop_first() =~= b.drop_first() {
            assert(a =~= seq![a[0]] + a.drop_first());
            assert(b =~= seq![b[0]] + b.drop_first());
        }
    }
}

proof fn lemma_bytes_lt_transitive(a: Seq<u8>, b: Seq<u8>, c: Seq<u8>)
    requires
        bytes_lt(a, b),
        bytes_lt(b, c),
    ensures
        bytes_lt(a, c),
    decreases a.len(),
{
    if a.len() > 0 && b.len() > 0 && c.len() > 0 && a[0] == b[0] && b[0] == c[0] {
        lemma_bytes_lt_transitive(a.drop_first(), b.drop_first(), c.drop_first());
    }
}

/// Compares two byte strings in lexicographic order.
fn bytes_less(a: &[u8], b: &[u8]) -> (r: bool)
    ensures
        r == bytes_lt(a@, b@),
{
    let mut i: usize = 0;
    assert(a@.skip(0) =~= a@);
    assert(b@.skip(0) =~= b@);
    while i < a.len() && i < b.len()
        invariant
            i <= a@.len(),
            i <= b@.len(),
            bytes_lt(a@, b@) == bytes_lt(a@.skip(i as int), b@.skip(i as int)),
        decreases a@.len() - i,
    {
        if a[i] != b[i] {
            return a[i] < b[i];
        }
        assert(a@.skip(i as int).drop_first() =~= a@.skip(i + 1));
        assert(b@.skip(i as int).drop_first() =~= b@.skip(i + 1));
        i = i + 1;
    }
    i < b.len()
}

/// Entries whose names are in strictly ascending order (so unique).
pub open spec fn sorted_entries(e: Seq<(String, CustomTypeKind)>) -> bool {
    forall|i: int, j: int|
        0 <= i < j < e.len() ==> name_lt(#[trigger] e[i].0@, #[trigger] e[j].0@)
}

/// Whether some entry is named `k`.
pub open spec fn has_name(e: Seq<(String, CustomTypeKind)>, k: Seq<char>) -> bool {
    exists|i: int| 0 <= i < e.len() && #[trigger] e[i].0@ == k
}

/// The index of the entry named `k`.
pub open spec fn position(e: Seq<(String, CustomTypeKind)>, k: Seq<char>) -> int {
    choose|i: int| 0 <= i < e.len() && #[trigger] e[i].0@ == k
}

/// The map from names to definitions that the entries hold.
pub open spec fn entries_map(e: Seq<(String, CustomTypeKind)>) -> Map<Seq<char>, CustomTypeKind> {
    Map::new(|k: Seq<char>| has_name(e, k), |k: Seq<char>| e[position(e, k)].1)
}

proof fn lemma_names_distinct(e: Seq<(String, CustomTypeKind)>, i: int, j: int)
    requires
        sorted_entries(e),
        0 <= i < e.len(),
        0 <= j < e.len(),
        e[i].0@ == e[j].0@,
    ensures
        i == j,
{
    if i < j {
        assert(name_lt(e[i].0@, e[j].0@));
        lemma_bytes_lt_irreflexive(encode_utf8(e[i].0@));
    } else if j < i {
        assert(name_lt(e[j].0@, e[i].0@));
        lemma_bytes_lt_irreflexive(encode_utf8(e[i].0@));
    }
}

proof fn lemma_entry_in_map(e: Seq<(String, CustomTypeKind)>, i: int)
    requires
        sorted_entries(e),
        0 <= i < e.len(),
    ensures
        entries_map(e).contains_key(e[i].0@),
        entries_map(e)[e[i].0@] == e[i].1,
{
    let k = e[i].0@;
    assert(has_name(e, k));
    let j = position(e, k);
    lemma_names_distinct(e, i, j);
}

proof fn lemma_insert_entry(
    e: Seq<(String, CustomTypeKind)>,
    p: int,
    name: String,
    kind: CustomTypeKind,
)
    requires
        sorted_entries(e),
        0 <= p <= e.len(),
        forall|i: int| 0 <= i < p ==> name_lt(#[trigger] e[i].0@, name@),
        forall|i: int| p <= i < e.len() ==> name_lt(name@, #[trigger] e[i].0@),
    ensures
        sorted_entries(e.insert(p, (name, kind))),
        entries_map(e.insert(p, (name, kind))) == entries_map(e).insert(name@, kind),
{
    let e2 = e.insert(p, (name, kind));
    assert forall|i: int, j: int| 0 <= i < j < e2.len() implies name_lt(
        #[trigger] e2[i].0@,
        #[trigger] e2[j].0@,
    ) by {
        if i < p && j < p {
        } else if i < p && j == p {
        } else if i < p {
            assert(e2[j] == e[j - 1]);
            lemma_bytes_lt_transitive(encode_utf8(e[i].0@), encode_utf8(name@), encode_utf8(e[j - 1].0@));
        } else if i == p {
            assert(e2[j] == e[j - 1]);
        } else {
            assert(e2[i] == e[i - 1]);
            assert(e2[j] == e[j - 1]);
        }
    }
    let m1 = entries_map(e2);
    let m2 = entries_map(e).insert(name@, kind);
    assert forall|k: Seq<char>| m1.contains_key(k) <==> m2.contains_key(k) by {
        if m1.contains_key(k) {
            let i = choose|i: int| 0 <= i < e2.len() && #[trigger] e2[i].0@ == k;
            if i < p {
                assert(e2[i] == e[i]);
                assert(has_name(e, k));
            } else if i > p {
                assert(e2[i] == e[i - 1]);
                assert(has_name(e, k));
            }
        }
        if m2.contains_key(k) {
            if k == name@ {
                assert(e2[p].0@ == k);
                assert(has_name(e2, k));
            } else {
                let i = choose|i: int| 0 <= i < e.len() && #[trigger] e[i].0@ == k;
                if i < p {
                    assert(e2[i] == e[i]);
                    assert(has_name(e2, k));
                } else {
                    assert(e2[i + 1] == e[i]);
                    assert(has_name(e2, k));
                }
            }
        }
    }
    assert forall|k: Seq<char>| #[trigger] m1.contains_key(k) implies m1[k] == m2[k] by {
        if k == name@ {
            assert(e2[p].0@ == k);
            lemma_entry_in_map(e2, p);
        } else {
            let i = choose|i: int| 0 <= i < e.len() && #[trigger] e[i].0@ == k;
            lemma_entry_in_map(e, i);
            if i < p {
                assert(e2[i] == e[i]);
                lemma_entry_in_map(e2, i);
            } else {
                assert(e2[i + 1] == e[i]);
                lemma_entry_in_map(e2, i + 1);
            }
        }
    }
    assert(m1 =~= m2);
}

proof fn lemma_replace_entry(
    e: Seq<(String, CustomTypeKind)>,
    p: int,
    name: String,
    kind: CustomTypeKind,
)
    requires
        sorted_entries(e),
        0 <= p < e.len(),
        e[p].0@ == name@,
    ensures
        sorted_entries(e.update(p, (name, kind))),
        entries_map(e.update(p, (name, kind))) == entries_map(e).insert(name@, kind),
{
    let e2 = e.update(p, (name, kind));
    assert forall|i: int, j: int| 0 <= i < j < e2.len() implies name_lt(
        #[trigger] e2[i].0@,
        #[trigger] e2[j].0@,
    ) by {
        assert(e2[i].0@ == e[i].0@);
        assert(e2[j].0@ == e[j].0@);
    }
    let m1 = entries_map(e2);
    let m2 = entries_map(e).insert(name@, kind);
    assert forall|k: Seq<char>| m1.contains_key(k) <==> m2.contains_key(k) by {
        if m1.contains_key(k) {
            let i = choose|i: int| 0 <= i < e2.len() && #[trigger] e2[i].0@ == k;
            assert(e[i].0@ == k);
        }
        if m2.contains_key(k) {
            if k == name@ {
                assert(e2[p].0@ == k);
            } else {
                let i = choose|i: int| 0 <= i < e.len() && #[trigger] e[i].0@ == k;
                assert(e2[i].0@ == k);
            }
        }
    }
    assert forall|k: Seq<char>| #[trigger] m1.contains_key(k) implies m1[k] == m2[k] by {
        let i = choose|i: int| 0 <= i < e2.len() && #[trigger] e2[i].0@ == k;
        lemma_entry_in_map(e2, i);
        if i != p {
            assert(e[i].0@ == k);
            lemma_entry_in_map(e, i);
            if k == name@ {
                lemma_names_distinct(e, i, p);
            }
        } else {
            assert(k == name@);
        }
    }
    assert(m1 =~= m2);
}

/// The registry of user-defined types met while describing a service, keyed by
/// the type's path, in ascending order of names.
/// The definition a name is registered with while its own definition is
/// being built: a unit type without documentation or variants.
pub open spec fn is_placeholder(k: CustomTypeKind) -> bool {
    k matches CustomTypeKind::Unit(t) && t.doc@.len() == 0 && t.fields@.len() == 0
}

#[derive(Debug)]
pub struct CostomTypes {
    entries: Vec<(String, CustomTypeKind)>,
}

impl View for CostomTypes {
    type V = Map<Seq<char>, CustomTypeKind>;

    closed spec fn view(&self) -> Map<Seq<char>, CustomTypeKind> {
        entries_map(self.entries@)
    }
}

impl CostomTypes {
    #[verifier::type_invariant]
    spec fn sorted(self) -> bool {
        sorted_entries(self.entries@)
    }

    /// Where `name` stands: `Ok` with its index, or `Err` with the index where it
    /// would be inserted to keep the names ascending.
    fn find(&self, name: &str) -> (r: Result<usize, usize>)
        ensures
            match r {
                Ok(i) => i < self.entries@.len() && self.entries@[i as int].0@ == name@,
                Err(p) => {
                    &&& p <= self.entries@.len()
                    &&& forall|i: int| 0 <= i < p ==> name_lt(#[trigger] self.entries@[i].0@, name@)
                    &&& forall|i: int|
                        p <= i < self.entries@.len() ==> name_lt(name@, #[trigger] self.entries@[i].0@)
                },
            },
            r is Ok <==> self@.contains_key(name@),
            r matches Ok(i) ==> self@[name@] == self.entries@[i as int].1,
    {
        proof {
            use_type_invariant(self);
        }
        let r = self.find_position(name);
        proof {
            match r {
                Ok(i) => lemma_entry_in_map(self.entries@, i as int),
                Err(p) => {
                    if has_name(self.entries@, name@) {
                        let i = choose|i: int|
                            0 <= i < self.entries@.len() && #[trigger] self.entries@[i].0@ == name@;
                        lemma_bytes_lt_irreflexive(encode_utf8(name@));
                        if i < p {
                            assert(name_lt(self.entries@[i].0@, name@));
                        } else {
                            assert(name_lt(name@, self.entries@[i].0@));
                        }
                    }
                },
            }
        }
        r
    }

    fn find_position(&self, name: &str) -> (r: Result<usize, usize>)
        requires
            sorted_entries(self.entries@),
        ensures
            match r {
                Ok(i) => i < self.entries@.len() && self.entries@[i as int].0@ == name@,
                Err(p) => {
                    &&& p <= self.entries@.len()
                    &&& forall|i: int| 0 <= i < p ==> name_lt(#[trigger] self.entries@[i].0@, name@)
                    &&& forall|i: int|
                        p <= i < self.entries@.len() ==> name_lt(name@, #[trigger] self.entries@[i].0@)
                },
            },
    {
        let nb = name.as_bytes();
        let mut i: usize = 0;
        while i < self.entries.len()
            invariant
                i <= self.entries@.len(),
                nb@ == encode_utf8(name@),
                sorted_entries(self.entries@),
                forall|j: int| 0 <= j < i ==> name_lt(#[trigger] self.entries@[j].0@, name@),
            decreases self.entries@.len() - i,
        {
            let kb = self.entries[i].0.as_str().as_bytes();
            if bytes_less(kb, nb) {
                i = i + 1;
            } else if bytes_less(nb, kb) {
                proof {
                    assert forall|j: int| i <= j < self.entries@.len() implies name_lt(
                        name@,
                        #[trigger] self.entries@[j].0@,
                    ) by {
                        if j > i {
                            assert(name_lt(self.entries@[i as int].0@, self.entries@[j].0@));
                            lemma_bytes_lt_transitive(
                                encode_utf8(name@),
                                encode_utf8(self.entries@[i as int].0@),
                                encode_utf8(self.entries@[j].0@),
                            );
                        }
                    }
                }
                return Err(i);
            } else {
                proof {
                    lemma_bytes_lt_total(kb@, nb@);
                    assert(decode_utf8(encode_utf8(self.entries@[i as int].0@)) == decode_utf8(
                        encode_utf8(name@),
                    ));
                }
                return Ok(i);
            }
        }
        Err(i)
    }

    /// Sets the definition of `name`, returning the one it replaces.
    fn insert(&mut self, name: String, kind: CustomTypeKind) -> (r: Option<CustomTypeKind>)
        ensures
            final(self)@ == old(self)@.insert(name@, kind),
            r matches Some(k) ==> old(self)@.contains_key(name@) && k == old(self)@[name@],
            r is None ==> !old(self)@.contains_key(name@),
    {
        proof {
            use_type_invariant(&*self);
        }
        let found = self.find(name.as_str());
        let mut entries: Vec<(String, CustomTypeKind)> = Vec::new();
        std::mem::swap(&mut entries, &mut self.entries);
        let ghost e = entries@;
        match found {
            Ok(i) => {
                let previous = entries.remove(i);
                proof {
                    lemma_replace_entry(e, i as int, name, kind);
                    assert(entries@.insert(i as int, (name, kind)) =~= e.update(i as int, (name, kind)));
                }
                entries.insert(i, (name, kind));
                self.entries = entries;
                Some(previous.1)
            },
            Err(p) => {
                proof {
                    lemma_insert_entry(e, p as int, name, kind);
                }
                entries.insert(p, (name, kind));
                self.entries = entries;
                None
            },
        }
    }

    /// The definition registered under `name`, if any.
    pub fn get(&self, name: &str) -> (r: Option<&CustomTypeKind>)
        ensures
            r matches Some(k) ==> self@.contains_key(name@) && *k == self@[name@],
            r is None <==> !self@.contains_key(name@),
    {
        match self.find(name) {
            Ok(i) => Some(&self.entries[i].1),
            Err(_) => None,
        }
    }

    /// Whether a definition is registered under `name`.
    pub fn contains_key(&self, name: &str) -> (r: bool)
        ensures
            r == self@.contains_key(name@),
    {
        self.find(name).is_ok()
    }

    /// All registered definitions, in ascending order of names.
    pub fn entries(&self) -> (r: &[(String, CustomTypeKind)])
        ensures
            sorted_entries(r@),
            entries_map(r@) == self@,
    {
        proof {
            use_type_invariant(self);
        }
        self.entries.as_slice()
    }

    /// Registers the type `name` and returns the type that refers to it.
    ///
    /// When `name` is not yet known, a placeholder definition is stored under it
    /// first, so that a definition that refers to itself (a recursive type) does
    /// not register again; then `f` builds the definition, which replaces the
    /// placeholder. A name that is already known leaves the registry as it is.
    pub fn register<F>(&mut self, name: String, f: F) -> (res: Ty) where
        F: FnOnce(&mut CostomTypes) -> CustomTypeKind,
        requires
            forall|c: &mut CostomTypes| call_requires(f, (c,)),
        ensures
            res == Ty::CustomType(name),
            old(self)@.contains_key(name@) ==> final(self)@ == old(self)@,
            final(self)@.contains_key(name@),
            !old(self)@.contains_key(name@) ==> exists|c: &mut CostomTypes|
                {
                    &&& (*c)@ == old(self)@.insert(name@, (*c)@[name@])
                    &&& is_placeholder((*c)@[name@])
                    &&& call_ensures(f, (c,), final(self)@[name@])
                    &&& final(self)@ == (*final(c))@.insert(name@, final(self)@[name@])
                },
    {
        if !self.contains_key(name.as_str()) {
            self.insert(name.clone(), CustomTypeKind::default());
            let ghost before = *self;
            let kind = f(self);
            let ghost k = kind;
            let ghost after = *self;
            self.insert(name.clone(), kind);
            assert(self@[name@] == k);
            assert(exists|c: &mut CostomTypes|
                {
                    &&& *c == before
                    &&& call_ensures(f, (c,), k)
                    &&& *final(c) == after
                });
        }
        Ty::CustomType(name)
    }
}

impl Default for CostomTypes {
    fn default() -> (r: Self)
        ensures
            r@ == Map::<Seq<char>, CustomTypeKind>::empty(),
    {
        let r = CostomTypes { entries: Vec::new() };
        assert(entries_map(r.entries@) =~= Map::<Seq<char>, CustomTypeKind>::empty());
        r
    }
}

} // verus!
