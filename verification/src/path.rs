use vstd::prelude::*;

verus! {

/// A filesystem path held as plain bytes, so that the reload logic can
/// compare and combine paths without touching the platform path type.
pub struct AssetPath {
    bytes: Vec<u8>,
}

/// The byte that separates path components.
pub const SEPARATOR: u8 = 47;

/// A path is absolute when it starts with the separator.
pub open spec fn is_absolute_spec(p: Seq<u8>) -> bool {
    p.len() > 0 && p[0] == SEPARATOR
}

/// Joining a relative path onto a root: root, one separator, then the rest.
pub open spec fn join_spec(root: Seq<u8>, rel: Seq<u8>) -> Seq<u8> {
    root + seq![SEPARATOR] + rel
}

/// Resolving against a root leaves an absolute path alone and joins a
/// relative one onto the root.
pub open spec fn resolve_spec(root: Seq<u8>, p: Seq<u8>) -> Seq<u8> {
    if is_absolute_spec(p) {
        p
    } else {
        join_spec(root, p)
    }
}

impl View for AssetPath {
    type V = Seq<u8>;

    closed spec fn view(&self) -> Seq<u8> {
        self.bytes@
    }
}

pub fn copy_bytes(v: &Vec<u8>) -> (r: Vec<u8>)
    ensures
        r@ == v@,
{
    let mut out: Vec<u8> = Vec::new();
    let mut i: usize = 0;
    while i < v.len()
        invariant
            i <= v.len(),
            out@ == v@.subrange(0, i as int),
        decreases v.len() - i,
    {
        out.push(v[i]);
        i = i + 1;
        proof {
            assert(out@ == v@.subrange(0, i as int));
        }
    }
    proof {
        assert(v@.subrange(0, v@.len() as int) == v@);
    }
    out
}

impl Clone for AssetPath {
    fn clone(&self) -> (r: Self)
        ensures
            r@ == self@,
    {
        AssetPath { bytes: copy_bytes(&self.bytes) }
    }
}

impl AssetPath {
    pub fn new(bytes: Vec<u8>) -> (r: AssetPath)
        ensures
            r@ == bytes@,
    {
        AssetPath { bytes }
    }

    pub fn as_bytes(&self) -> (r: &Vec<u8>)
        ensures
            r@ == self@,
    {
        &self.bytes
    }

    pub fn len(&self) -> (r: usize)
        ensures
            r == self@.len(),
    {
        self.bytes.len()
    }

    /// Byte-for-byte path equality.
    pub fn same_as(&self, other: &AssetPath) -> (r: bool)
        ensures
            r == (self@ == other@),
    {
        eq_bytes(&self.bytes, &other.bytes)
    }

    pub fn is_absolute(&self) -> (r: bool)
        ensures
            r == is_absolute_spec(self@),
    {
        self.bytes.len() > 0 && self.bytes[0] == SEPARATOR
    }

    /// Resolves `self` against `root`: an absolute path is returned as it
    /// is, a relative one is joined onto the root.
    pub fn resolve_against(&self, root: &AssetPath) -> (r: AssetPath)
        ensures
            r@ == resolve_spec(root@, self@),
    {
        if self.is_absolute() {
            self.clone()
        } else {
            let mut out = copy_bytes(&root.bytes);
            out.push(SEPARATOR);
            let mut i: usize = 0;
            while i < self.bytes.len()
                invariant
                    i <= self.bytes.len(),
                    out@ == root@ + seq![SEPARATOR] + self.bytes@.subrange(0, i as int),
                decreases self.bytes.len() - i,
            {
                out.push(self.bytes[i]);
                i = i + 1;
            }
            proof {
                assert(self.bytes@.subrange(0, self.bytes@.len() as int) == self.bytes@);
                assert(out@ == join_spec(root@, self@));
            }
            AssetPath { bytes: out }
        }
    }
}

/// Byte-vector equality, proved element by element.
pub fn eq_bytes(a: &Vec<u8>, b: &Vec<u8>) -> (r: bool)
    ensures
        r == (a@ == b@),
{
    if a.len() != b.len() {
        proof {
            assert(a@.len() != b@.len());
        }
        return false;
    }
    let mut i: usize = 0;
    while i < a.len()
        invariant
            i <= a.len(),
            a@.len() == b@.len(),
            forall|j: int| 0 <= j < i ==> a@[j] == b@[j],
        decreases a.len() - i,
    {
        if a[i] != b[i] {
            proof {
                assert(a@[i as int] != b@[i as int]);
            }
            return false;
        }
        i = i + 1;
    }
    proof {
        assert(a@ =~= b@);
    }
    true
}

} // verus!
