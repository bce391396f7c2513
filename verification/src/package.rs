//! Package identifiers and the set of packages a source tree declares.

use vstd::prelude::*;
use vstd::hash_set::StringHashSet;
use crate::text::texts;

verus! {

/// The character a package name carries in a directory name: the display
/// separator `-` is written `_`, every other character stands for itself.
pub open spec fn normalized_char(c: char) -> char {
    if c == '-' {
        '_'
    } else {
        c
    }
}

/// The directory name the documentation generator gives a package.
pub open spec fn normalized(name: Seq<char>) -> Seq<char> {
    name.map_values(|c: char| normalized_char(c))
}

/// Computes the normalized identifier of a declared package name.
pub fn normalize_package_name(name: &str) -> (id: String)
    ensures
        id@ == normalized(name@),
{
    broadcast use vstd::string::group_string_axioms;

    let mut id = String::new();
    for c in it: name.chars()
        invariant
            it.seq() == name@,
            id@ == normalized(name@.take(it.index() as int)),
    {
        assert(name@.take(it.index() + 1) == name@.take(it.index() as int).push(c));
        id.push(if c == '-' { '_' } else { c });
    }
    assert(name@.take(name@.len() as int) == name@);
    id
}

/// The identifiers of a list of declared package names: each name
/// normalized, each identifier once.
pub open spec fn resolved_ids(names: Seq<Seq<char>>) -> Set<Seq<char>> {
    names.map_values(|n: Seq<char>| normalized(n)).to_set()
}

/// The packages of one source tree, by normalized identifier. An identifier
/// is a member or not: the set has no order and holds nothing twice.
pub struct PackageSet {
    ids: StringHashSet,
}

impl View for PackageSet {
    type V = Set<Seq<char>>;

    closed spec fn view(&self) -> Set<Seq<char>> {
        self.ids@
    }
}

impl PackageSet {
    /// The set without packages.
    pub fn empty() -> (set: PackageSet)
        ensures
            set@ == Set::<Seq<char>>::empty(),
    {
        PackageSet { ids: StringHashSet::new() }
    }

    /// Resolves the declared package names of a build manifest graph to the
    /// set of identifiers under which their documentation is generated.
    pub fn resolve(names: &Vec<String>) -> (set: PackageSet)
        ensures
            set@ == resolved_ids(texts(names@)),
            set@.finite(),
    {
        let mut ids = StringHashSet::new();
        let mut i: usize = 0;
        while i < names.len()
            invariant
                i <= names.len(),
                ids@ == resolved_ids(texts(names@).take(i as int)),
            decreases names.len() - i,
        {
            let id = normalize_package_name(names[i].as_str());
            proof {
                let all = texts(names@);
                let done = all.take(i as int).map_values(|n: Seq<char>| normalized(n));
                let next = all.take(i + 1).map_values(|n: Seq<char>| normalized(n));
                assert(next == done.push(id@));
                vstd::seq_lib::seq_to_set_is_finite(done);
                done.lemma_push_to_set_commute(id@);
            }
            ids.insert(id);
            i += 1;
        }
        proof {
            assert(texts(names@).take(names.len() as int) == texts(names@));
            vstd::seq_lib::seq_to_set_is_finite(
                texts(names@).map_values(|n: Seq<char>| normalized(n)),
            );
        }
        PackageSet { ids }
    }

    /// The number of packages.
    pub fn len(&self) -> (n: usize)
        ensures
            n == self@.len(),
    {
        self.ids.len()
    }

    /// Whether `id` names a package of the source tree. The test is plain
    /// equality of identifiers: no case folding, no further normalization.
    pub fn contains(&self, id: &str) -> (found: bool)
        ensures
            found == self@.contains(id@),
    {
        self.ids.contains(id)
    }
}

/// A source tree that declares `names.len()` packages resolves to at most
/// that many identifiers, and to exactly that many where no two declared
/// names share a normalized form.
pub proof fn lemma_resolved_count(names: Seq<Seq<char>>)
    ensures
        resolved_ids(names).finite(),
        resolved_ids(names).len() <= names.len(),
        (forall|i: int, j: int|
            0 <= i < j < names.len() ==> normalized(names[i]) != normalized(names[j]))
            ==> resolved_ids(names).len() == names.len(),
{
    let ids = names.map_values(|n: Seq<char>| normalized(n));
    vstd::seq_lib::seq_to_set_is_finite(ids);
    ids.lemma_cardinality_of_set();
    if forall|i: int, j: int|
        0 <= i < j < names.len() ==> normalized(names[i]) != normalized(names[j]) {
        assert(ids.no_duplicates()) by {
            assert forall|i: int, j: int| 0 <= i < ids.len() && 0 <= j < ids.len() && i != j
                implies ids[i] != ids[j] by {
                if i < j {
                    assert(normalized(names[i]) != normalized(names[j]));
                } else {
                    assert(normalized(names[j]) != normalized(names[i]));
                }
            }
        }
        ids.unique_seq_to_set();
    }
}

/// The resolved identifiers are the normalized forms of the declared
/// names, of every one of them and of nothing else.
pub proof fn lemma_resolved_ids_are_normalized_names(names: Seq<Seq<char>>, id: Seq<char>)
    ensures
        resolved_ids(names).contains(id) <==> exists|i: int|
            0 <= i < names.len() && id == normalized(#[trigger] names[i]),
{
    let ids = names.map_values(|n: Seq<char>| normalized(n));
    if resolved_ids(names).contains(id) {
        let i = choose|i: int| 0 <= i < ids.len() && ids[i] == id;
        assert(id == normalized(names[i]));
    }
    if exists|i: int| 0 <= i < names.len() && id == normalized(#[trigger] names[i]) {
        let i = choose|i: int| 0 <= i < names.len() && id == normalized(#[trigger] names[i]);
        assert(ids[i] == id);
        assert(ids.contains(id));
    }
}

} // verus!
