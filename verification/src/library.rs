use vstd::prelude::*;

use crate::jsonio;
use crate::path::AssetPath;
use crate::path::copy_bytes;
use crate::path::resolve_spec;

verus! {

#[derive(Clone, Copy, Debug, PartialEq, Eq, Structural)]
pub enum ManifestError {
    /// The manifest exists but is not a JSON array of strings.
    Parse,
}

/// Parses the library manifest: a JSON array of relative path strings.
/// serde_json decides whether the bytes have that shape; the contract pins
/// the result to exactly what it returned.
pub fn parse_manifest(bytes: &Vec<u8>) -> (r: Result<Vec<Vec<u8>>, ManifestError>)
    ensures
        r is Ok <==> jsonio::manifest_entries(bytes@) is Some,
        r matches Ok(v) ==> v.deep_view() == jsonio::manifest_entries(bytes@).unwrap(),
        r is Err ==> r == Err::<Vec<Vec<u8>>, ManifestError>(ManifestError::Parse),
{
    match jsonio::parse_string_array(bytes) {
        Some(v) => Ok(v),
        None => Err(ManifestError::Parse),
    }
}

/// One auxiliary shader source fragment: its logical name (the manifest
/// entry itself) and the file it lives in.
pub struct LibraryEntry {
    pub name: Vec<u8>,
    pub path: AssetPath,
}

/// The mathematical image of a `LibraryEntry`.
pub ghost struct LibraryEntryV {
    pub name: Seq<u8>,
    pub path: Seq<u8>,
}

impl View for LibraryEntry {
    type V = LibraryEntryV;

    open spec fn view(&self) -> LibraryEntryV {
        LibraryEntryV { name: self.name@, path: self.path@ }
    }
}

/// The entry a manifest line resolves to under the library root.
pub open spec fn entry_of(library_root: Seq<u8>, raw: Seq<u8>) -> LibraryEntryV {
    LibraryEntryV { name: raw, path: resolve_spec(library_root, raw) }
}

/// Resolves every manifest entry against the library root, in order.  The
/// logical name of a fragment is the manifest entry itself.
pub fn resolve_entries(entries: &Vec<Vec<u8>>, library_root: &AssetPath) -> (r: Vec<LibraryEntry>)
    ensures
        r@.len() == entries@.len(),
        forall|i: int|
            0 <= i < r@.len() ==> r@[i]@ == entry_of(library_root@, entries@[i]@),
{
    let mut out: Vec<LibraryEntry> = Vec::new();
    let mut i: usize = 0;
    while i < entries.len()
        invariant
            i <= entries.len(),
            out@.len() == i,
            forall|j: int|
                0 <= j < i ==> out@[j]@ == entry_of(library_root@, entries@[j]@),
        decreases entries.len() - i,
    {
        let raw = copy_bytes(&entries[i]);
        let path = AssetPath::new(copy_bytes(&entries[i])).resolve_against(library_root);
        out.push(LibraryEntry { name: raw, path });
        i = i + 1;
    }
    out
}

/// The shared shader-preprocessing registry: logical fragment names mapped
/// to their source text.  Registering a name that is already present
/// overwrites its content.
pub struct Registry {
    entries: Vec<(Vec<u8>, Vec<u8>)>,
}

/// The map a list of (name, content) entries folds to, later entries
/// winning.
pub open spec fn map_of(s: Seq<(Vec<u8>, Vec<u8>)>) -> Map<Seq<u8>, Seq<u8>>
    decreases s.len(),
{
    if s.len() == 0 {
        Map::empty()
    } else {
        map_of(s.drop_last()).insert(s.last().0@, s.last().1@)
    }
}

impl View for Registry {
    type V = Map<Seq<u8>, Seq<u8>>;

    closed spec fn view(&self) -> Map<Seq<u8>, Seq<u8>> {
        map_of(self.entries@)
    }
}

/// No logical name occurs twice.
pub closed spec fn unique_names(s: Seq<(Vec<u8>, Vec<u8>)>) -> bool {
    forall|i: int, j: int| 0 <= i < j < s.len() ==> s[i].0@ != s[j].0@
}

proof fn lemma_map_of_domain(s: Seq<(Vec<u8>, Vec<u8>)>, name: Seq<u8>)
    ensures
        map_of(s).contains_key(name) <==> exists|i: int| 0 <= i < s.len() && s[i].0@ == name,
    decreases s.len(),
{
    if s.len() > 0 {
        lemma_map_of_domain(s.drop_last(), name);
        if map_of(s).contains_key(name) {
            if s.last().0@ != name {
                let i = choose|i: int| 0 <= i < s.drop_last().len() && s.drop_last()[i].0@ == name;
                assert(s[i].0@ == name);
            }
        }
        if exists|i: int| 0 <= i < s.len() && s[i].0@ == name {
            let i = choose|i: int| 0 <= i < s.len() && s[i].0@ == name;
            if i < s.len() - 1 {
                assert(s.drop_last()[i].0@ == name);
            }
        }
    }
}

proof fn lemma_map_of_at(s: Seq<(Vec<u8>, Vec<u8>)>, i: int)
    requires
        unique_names(s),
        0 <= i < s.len(),
    ensures
        map_of(s).contains_key(s[i].0@),
        map_of(s)[s[i].0@] == s[i].1@,
    decreases s.len(),
{
    if i == s.len() - 1 {
    } else {
        assert(unique_names(s.drop_last()));
        assert(s.drop_last()[i] == s[i]);
        lemma_map_of_at(s.drop_last(), i);
        assert(s[i].0@ != s.last().0@);
    }
}

proof fn lemma_map_of_update(s: Seq<(Vec<u8>, Vec<u8>)>, i: int, pair: (Vec<u8>, Vec<u8>))
    requires
        unique_names(s),
        0 <= i < s.len(),
        pair.0@ == s[i].0@,
    ensures
        map_of(s.update(i, pair)) == map_of(s).insert(pair.0@, pair.1@),
    decreases s.len(),
{
    let t = s.update(i, pair);
    if i == s.len() - 1 {
        assert(t.drop_last() == s.drop_last());
        assert(map_of(t) == map_of(s.drop_last()).insert(pair.0@, pair.1@));
        assert(map_of(s).insert(pair.0@, pair.1@) == map_of(s.drop_last()).insert(
            s.last().0@,
            s.last().1@,
        ).insert(pair.0@, pair.1@));
        assert(map_of(s.drop_last()).insert(pair.0@, pair.1@) =~= map_of(s.drop_last()).insert(
            s.last().0@,
            s.last().1@,
        ).insert(pair.0@, pair.1@));
    } else {
        assert(unique_names(s.drop_last()));
        assert(s.drop_last()[i] == s[i]);
        lemma_map_of_update(s.drop_last(), i, pair);
        assert(t.drop_last() == s.drop_last().update(i, pair));
        assert(t.last() == s.last());
        assert(map_of(t) == map_of(s.drop_last()).insert(pair.0@, pair.1@).insert(
            s.last().0@,
            s.last().1@,
        ));
        assert(s[i].0@ != s.last().0@);
        assert(map_of(s.drop_last()).insert(pair.0@, pair.1@).insert(s.last().0@, s.last().1@)
            =~= map_of(s.drop_last()).insert(s.last().0@, s.last().1@).insert(pair.0@, pair.1@));
    }
}

impl Registry {
    pub fn new() -> (r: Registry)
        ensures
            r@ == Map::<Seq<u8>, Seq<u8>>::empty(),
            r.wf(),
    {
        Registry { entries: Vec::new() }
    }

    /// The internal entry list never holds a logical name twice.
    pub closed spec fn wf(&self) -> bool {
        unique_names(self.entries@)
    }

    pub fn len(&self) -> (r: usize)
        requires
            self.wf(),
        ensures
            r == self@.dom().len(),
    {
        proof {
            lemma_map_of_len(self.entries@);
        }
        self.entries.len()
    }

    /// Registers or overwrites a named source fragment.
    pub fn add(&mut self, name: Vec<u8>, content: Vec<u8>)
        requires
            old(self).wf(),
        ensures
            final(self).wf(),
            final(self)@ == old(self)@.insert(name@, content@),
    {
        let mut i: usize = 0;
        while i < self.entries.len()
            invariant
                i <= self.entries.len(),
                self.entries@ == old(self).entries@,
                unique_names(self.entries@),
                forall|j: int| 0 <= j < i ==> self.entries@[j].0@ != name@,
            decreases self.entries.len() - i,
        {
            if crate::path::eq_bytes(&self.entries[i].0, &name) {
                let ghost s0 = self.entries@;
                let pair = (name, content);
                proof {
                    lemma_map_of_update(s0, i as int, pair);
                }
                self.entries.set(i, pair);
                proof {
                    assert(map_of(self.entries@) == map_of(s0).insert(pair.0@, pair.1@));
                    assert forall|a: int, b: int|
                        0 <= a < b < self.entries@.len() implies self.entries@[a].0@
                        != self.entries@[b].0@ by {
                        assert(s0[a].0@ != s0[b].0@);
                    }
                }
                return ;
            }
            i = i + 1;
        }
        let ghost s0 = self.entries@;
        proof {
            lemma_map_of_domain(s0, name@);
        }
        self.entries.push((name, content));
        proof {
            assert(self.entries@.drop_last() == s0);
            assert forall|a: int, b: int|
                0 <= a < b < self.entries@.len() implies self.entries@[a].0@
                != self.entries@[b].0@ by {
                if b < self.entries@.len() - 1 {
                    assert(s0[a].0@ != s0[b].0@);
                }
            }
        }
    }

    /// Looks a logical name up.
    pub fn get(&self, name: &Vec<u8>) -> (r: Option<&Vec<u8>>)
        requires
            self.wf(),
        ensures
            match r {
                Some(c) => self@.contains_key(name@) && c@ == self@[name@],
                None => !self@.contains_key(name@),
            },
    {
        let mut i: usize = 0;
        while i < self.entries.len()
            invariant
                i <= self.entries.len(),
                self.wf(),
                forall|j: int| 0 <= j < i ==> self.entries@[j].0@ != name@,
            decreases self.entries.len() - i,
        {
            if crate::path::eq_bytes(&self.entries[i].0, &name) {
                proof {
                    lemma_map_of_at(self.entries@, i as int);
                }
                return Some(&self.entries[i].1);
            }
            i = i + 1;
        }
        proof {
            lemma_map_of_domain(self.entries@, name@);
        }
        None
    }
}

proof fn lemma_map_of_len(s: Seq<(Vec<u8>, Vec<u8>)>)
    requires
        unique_names(s),
    ensures
        map_of(s).dom().len() == s.len(),
        map_of(s).dom().finite(),
    decreases s.len(),
{
    if s.len() > 0 {
        assert(unique_names(s.drop_last()));
        lemma_map_of_len(s.drop_last());
        lemma_map_of_domain(s.drop_last(), s.last().0@);
        assert(!map_of(s.drop_last()).contains_key(s.last().0@));
        assert(map_of(s).dom() =~= map_of(s.drop_last()).dom().insert(s.last().0@));
        vstd::set::axiom_set_insert_finite(map_of(s.drop_last()).dom(), s.last().0@);
        vstd::set::axiom_set_insert_len(map_of(s.drop_last()).dom(), s.last().0@);
    }
}

} // verus!

