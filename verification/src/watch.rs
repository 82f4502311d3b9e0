use vstd::prelude::*;

use crate::path::AssetPath;

verus! {

/// The set of filesystem paths subscribed for change notification.  Its
/// three categories are explicit fields: the config path is fixed for the
/// process lifetime, exactly one shader path is watched at a time, and the
/// library fragment paths are the fixed startup set.
pub struct WatchSet {
    config_path: AssetPath,
    shader: AssetPath,
    libraries: Vec<AssetPath>,
}

/// The mathematical image of a `WatchSet`.
pub ghost struct WatchSetV {
    pub config_path: Seq<u8>,
    pub shader: Seq<u8>,
    pub libraries: Seq<Seq<u8>>,
}

impl WatchSetV {
    /// Every path the set watches.
    pub open spec fn paths(self) -> Set<Seq<u8>> {
        self.libraries.to_set().insert(self.config_path).insert(self.shader)
    }
}

impl View for WatchSet {
    type V = WatchSetV;

    closed spec fn view(&self) -> WatchSetV {
        WatchSetV {
            config_path: self.config_path@,
            shader: self.shader@,
            libraries: Seq::new(self.libraries@.len(), |i: int| self.libraries@[i]@),
        }
    }
}

impl WatchSet {
    pub fn new(config_path: AssetPath, shader: AssetPath, libraries: Vec<AssetPath>) -> (r:
        WatchSet)
        ensures
            r@.config_path == config_path@,
            r@.shader == shader@,
            r@.libraries.len() == libraries@.len(),
            forall|i: int| 0 <= i < libraries@.len() ==> r@.libraries[i] == libraries@[i]@,
    {
        WatchSet { config_path, shader, libraries }
    }

    pub fn config_path(&self) -> (r: &AssetPath)
        ensures
            r@ == self@.config_path,
    {
        &self.config_path
    }

    pub fn shader_path(&self) -> (r: &AssetPath)
        ensures
            r@ == self@.shader,
    {
        &self.shader
    }

    /// Moves the single shader watch to a new path, returning the path
    /// that was watched before so the host can unsubscribe it.  The two
    /// steps the host then performs (unwatch old, watch new) are each
    /// best-effort and individually logged.
    pub fn switch_shader(&mut self, new_shader: AssetPath) -> (r: AssetPath)
        ensures
            final(self)@.shader == new_shader@,
            final(self)@.config_path == old(self)@.config_path,
            final(self)@.libraries == old(self)@.libraries,
            r@ == old(self)@.shader,
    {
        let prev = self.shader.clone();
        self.shader = new_shader;
        prev
    }

    /// Whether a path is currently subscribed, in any category.
    pub fn is_watched(&self, p: &AssetPath) -> (r: bool)
        ensures
            r == self@.paths().contains(p@),
    {
        if p.same_as(&self.config_path) {
            return true;
        }
        if p.same_as(&self.shader) {
            return true;
        }
        let mut i: usize = 0;
        while i < self.libraries.len()
            invariant
                i <= self.libraries.len(),
                forall|j: int| 0 <= j < i ==> self.libraries@[j]@ != p@,
            decreases self.libraries.len() - i,
        {
            if self.libraries[i].same_as(p) {
                proof {
                    assert(self@.libraries[i as int] == p@);
                    assert(self@.libraries.contains(p@));
                }
                return true;
            }
            i = i + 1;
        }
        proof {
            assert forall|j: int| 0 <= j < self@.libraries.len() implies self@.libraries[j]
                != p@ by {
                assert(self.libraries@[j]@ != p@);
            }
            assert(!self@.libraries.contains(p@));
        }
        false
    }
}

} // verus!
