use vstd::prelude::*;

use crate::config::Config;
use crate::config::ConfigV;
use crate::library::Registry;
use crate::path::AssetPath;
use crate::path::copy_bytes;
use crate::watch::WatchSet;

verus! {

/// A compiled shader program paired with the source path it was built
/// from.  The program itself lives with the host engine; `program` is the
/// host's handle for it.
pub struct Artifact {
    pub source_path: AssetPath,
    pub program: u64,
}

/// The mathematical image of an `Artifact`.
pub ghost struct ArtifactV {
    pub source: Seq<u8>,
    pub program: u64,
}

impl View for Artifact {
    type V = ArtifactV;

    open spec fn view(&self) -> ArtifactV {
        ArtifactV { source: self.source_path@, program: self.program }
    }
}

impl Clone for Artifact {
    fn clone(&self) -> (r: Self)
        ensures
            r@ == self@,
    {
        Artifact { source_path: self.source_path.clone(), program: self.program }
    }
}

/// A debounced change event surfaced by the filesystem watcher.
pub enum FsEvent {
    /// The file at the path was created or written.
    Changed(AssetPath),
    /// The file at the path was removed.  Editors that save by deleting
    /// and recreating a file surface this for an ordinary write, so it is
    /// treated as a content change after the watch is re-established.
    Removed(AssetPath),
    /// The watcher reported an error on the path; logged, not actionable.
    WatchError(AssetPath),
}

/// The mathematical image of an `FsEvent`.
pub ghost enum EventV {
    Changed(Seq<u8>),
    Removed(Seq<u8>),
    WatchError(Seq<u8>),
}

impl View for FsEvent {
    type V = EventV;

    open spec fn view(&self) -> EventV {
        match self {
            FsEvent::Changed(p) => EventV::Changed(p@),
            FsEvent::Removed(p) => EventV::Removed(p@),
            FsEvent::WatchError(p) => EventV::WatchError(p@),
        }
    }
}

/// The outside outcomes one reload pass works from.  The host gathers them
/// by reading and compiling files; the controller is then a function of
/// them, whatever they are.
pub struct PassIo {
    /// Re-reading and parsing the config file; `None` when it was
    /// unreadable or rejected.  Only consulted for an event on the config
    /// path.
    pub config: Option<Config>,
    /// Compiling the target shader: the host's handle for the new
    /// program, or `None` when compilation failed.
    pub compile: Option<u64>,
    /// Re-reading and parsing the library manifest.
    pub manifest: Option<Vec<Vec<u8>>>,
    /// The on-disk content of each library fragment, aligned with the
    /// manifest entries; `None` marks an unreadable fragment.
    pub fragments: Vec<Option<Vec<u8>>>,
}

/// The mathematical image of a `PassIo`.
pub ghost struct IoV {
    pub config: Option<ConfigV>,
    pub compile: Option<u64>,
    pub manifest: Option<Seq<Seq<u8>>>,
    pub fragments: Seq<Option<Seq<u8>>>,
}

impl View for PassIo {
    type V = IoV;

    open spec fn view(&self) -> IoV {
        IoV {
            config: match self.config {
                Some(c) => Some(c@),
                None => None,
            },
            compile: self.compile,
            manifest: match self.manifest {
                Some(m) => Some(m.deep_view()),
                None => None,
            },
            fragments: self.fragments.deep_view(),
        }
    }
}

/// The whole controller state, as mathematics: what the state machine's
/// transition function is defined over.
pub ghost struct StateV {
    pub config_path: Seq<u8>,
    pub config: ConfigV,
    pub artifact: Option<ArtifactV>,
    pub watched_shader: Seq<u8>,
    pub library_watches: Seq<Seq<u8>>,
    pub registry: Map<Seq<u8>, Seq<u8>>,
    pub inert: bool,
    pub elapsed_ns: u64,
}

/// The path an event carries, when it is one that triggers a reload.
pub open spec fn event_path(e: EventV) -> Option<Seq<u8>> {
    match e {
        EventV::Changed(p) => Some(p),
        EventV::Removed(p) => Some(p),
        EventV::WatchError(_) => None,
    }
}

/// Stage one of a pass: an event on the config path re-reads the
/// configuration.  `None` means the pass ends here with nothing changed;
/// an event elsewhere leaves the configuration as it is.
pub open spec fn config_stage(pre: StateV, p: Seq<u8>, io: IoV) -> Option<StateV> {
    if p == pre.config_path {
        match io.config {
            Some(c) => Some(StateV { config: c, ..pre }),
            None => None,
        }
    } else {
        Some(pre)
    }
}

/// Stage two: when the target shader differs from the active artifact's
/// source, the single shader watch moves to the target — before
/// compilation is attempted, so a later edit of the new path is observed
/// even if this compilation fails.
pub open spec fn watch_stage(s: StateV) -> StateV {
    match s.artifact {
        Some(a) => if a.source != s.config.shader_path {
            StateV { watched_shader: s.config.shader_path, ..s }
        } else {
            s
        },
        None => s,
    }
}

/// The library injection fold, from entry `i` on: each fragment's on-disk
/// content is registered under its manifest entry, in order; a missing
/// content stops the remainder, leaving earlier injections in place.
pub open spec fn inject_from(
    reg: Map<Seq<u8>, Seq<u8>>,
    entries: Seq<Seq<u8>>,
    frags: Seq<Option<Seq<u8>>>,
    i: int,
) -> Map<Seq<u8>, Seq<u8>>
    decreases entries.len() - i,
{
    if i < 0 || i >= entries.len() || i >= frags.len() {
        reg
    } else {
        match frags[i] {
            Some(c) => inject_from(reg.insert(entries[i], c), entries, frags, i + 1),
            None => reg,
        }
    }
}

/// Stage three: on compile success the artifact is swapped and the library
/// is re-read and injected; on failure nothing changes and the previous
/// artifact stays authoritative.
pub open spec fn compile_stage(s: StateV, io: IoV) -> StateV {
    match io.compile {
        Some(prog) => {
            let s2 = StateV {
                artifact: Some(ArtifactV { source: s.config.shader_path, program: prog }),
                ..s
            };
            match io.manifest {
                Some(entries) => StateV {
                    registry: inject_from(s2.registry, entries, io.fragments, 0),
                    ..s2
                },
                None => s2,
            }
        },
        None => s,
    }
}

/// What one reload pass makes of the controller state.
pub open spec fn pass_spec(pre: StateV, event: EventV, io: IoV) -> StateV {
    if pre.inert {
        pre
    } else {
        match event_path(event) {
            Some(p) => match config_stage(pre, p, io) {
                Some(s1) => compile_stage(watch_stage(s1), io),
                None => pre,
            },
            None => pre,
        }
    }
}

/// Whether a pass switches the shader watch, and from which path to which.
pub open spec fn switch_spec(pre: StateV, event: EventV, io: IoV) -> Option<(Seq<u8>, Seq<u8>)> {
    if pre.inert {
        None
    } else {
        match event_path(event) {
            Some(p) => match config_stage(pre, p, io) {
                Some(s1) => match s1.artifact {
                    Some(a) => if a.source != s1.config.shader_path {
                        Some((pre.watched_shader, s1.config.shader_path))
                    } else {
                        None
                    },
                    None => None,
                },
                None => None,
            },
            None => None,
        }
    }
}

/// Whether a pass adopts a new artifact.
pub open spec fn adopt_spec(pre: StateV, event: EventV, io: IoV) -> bool {
    &&& !pre.inert
    &&& event_path(event) is Some
    &&& config_stage(pre, event_path(event).unwrap(), io) is Some
    &&& io.compile is Some
}

/// The path a pass asks the host to re-subscribe after a removal.
pub open spec fn rewatch_spec(pre: StateV, event: EventV) -> Option<Seq<u8>> {
    match event {
        EventV::Removed(p) => if !pre.inert {
            Some(p)
        } else {
            None
        },
        _ => None,
    }
}

/// The actions one pass asks the host to perform, and what it did.
pub struct PassReport {
    /// A removed path to re-subscribe.
    pub rewatch: Option<AssetPath>,
    /// The previously watched shader path, to unsubscribe.
    pub unwatch: Option<AssetPath>,
    /// The newly watched shader path, to subscribe.
    pub watch: Option<AssetPath>,
    /// Whether a new artifact was adopted this pass.
    pub adopted: bool,
}

/// The view of an optional path.
pub open spec fn opt_path(o: Option<AssetPath>) -> Option<Seq<u8>> {
    match o {
        Some(p) => Some(p@),
        None => None,
    }
}

/// The command-line entry of the shader editor: the config file path the
/// session works from, relative to the assets root.
pub struct ShaderEdit {
    pub config_path: String,
}

/// The reload controller: it interprets debounced watcher events, decides
/// whether the configuration or the shader (or both) must be reloaded,
/// swaps the compiled artifact on success and keeps the previous one —
/// last known good — on failure.
pub struct EditState {
    config: Config,
    watch: WatchSet,
    artifact: Option<Artifact>,
    registry: Registry,
    inert: bool,
    elapsed_ns: u64,
}

impl View for EditState {
    type V = StateV;

    closed spec fn view(&self) -> StateV {
        StateV {
            config_path: self.watch@.config_path,
            config: self.config@,
            artifact: match self.artifact {
                Some(a) => Some(a@),
                None => None,
            },
            watched_shader: self.watch@.shader,
            library_watches: self.watch@.libraries,
            registry: self.registry@,
            inert: self.inert,
            elapsed_ns: self.elapsed_ns,
        }
    }
}

/// Saturating addition on the frame-time accumulator.
pub open spec fn sat_add(a: u64, b: u64) -> u64 {
    if a + b > u64::MAX {
        u64::MAX
    } else {
        (a + b) as u64
    }
}

impl EditState {
    /// The registry's internal name list stays duplicate-free.
    pub closed spec fn wf(&self) -> bool {
        self.registry.wf()
    }

    /// Builds the controller after a successful startup: the initial
    /// configuration is adopted, the artifact compiled from its shader
    /// path is active, and the watch set holds the config path, that
    /// shader path, and the library fragment paths.
    pub fn new(config_path: AssetPath, config: Config, program: u64, library_paths: Vec<AssetPath>)
        -> (r: EditState)
        ensures
            r.wf(),
            r@.config_path == config_path@,
            r@.config == config@,
            r@.artifact == Some(ArtifactV { source: config@.shader_path, program }),
            r@.watched_shader == config@.shader_path,
            r@.library_watches.len() == library_paths@.len(),
            forall|i: int|
                0 <= i < library_paths@.len() ==> r@.library_watches[i] == library_paths@[i]@,
            r@.registry == Map::<Seq<u8>, Seq<u8>>::empty(),
            !r@.inert,
            r@.elapsed_ns == 0,
    {
        let shader = config.shader_path.clone();
        let artifact = Artifact { source_path: config.shader_path.clone(), program };
        EditState {
            watch: WatchSet::new(config_path, shader, library_paths),
            config,
            artifact: Some(artifact),
            registry: Registry::new(),
            inert: false,
            elapsed_ns: 0,
        }
    }

    /// Advances the frame-time accumulator; reloads never reset it, so
    /// visual continuity is preserved across a hot swap.
    pub fn advance_time(&mut self, delta_ns: u64)
        ensures
            final(self)@ == (StateV { elapsed_ns: sat_add(old(self)@.elapsed_ns, delta_ns), ..old(self)@ }),
            final(self).wf() == old(self).wf(),
    {
        if delta_ns > u64::MAX - self.elapsed_ns {
            self.elapsed_ns = u64::MAX;
        } else {
            self.elapsed_ns = self.elapsed_ns + delta_ns;
        }
    }

    pub fn elapsed_ns(&self) -> (r: u64)
        ensures
            r == self@.elapsed_ns,
    {
        self.elapsed_ns
    }

    /// The watcher's channel disconnected: the controller keeps running
    /// but no further auto-reload will happen.
    pub fn channel_disconnected(&mut self)
        ensures
            final(self)@ == (StateV { inert: true, ..old(self)@ }),
            final(self).wf() == old(self).wf(),
    {
        self.inert = true;
    }

    pub fn current_artifact(&self) -> (r: Option<&Artifact>)
        ensures
            match r {
                Some(a) => self@.artifact == Some(a@),
                None => self@.artifact is None,
            },
    {
        self.artifact.as_ref()
    }

    pub fn config(&self) -> (r: &Config)
        ensures
            r@ == self@.config,
    {
        &self.config
    }

    pub fn watched_shader(&self) -> (r: &AssetPath)
        ensures
            r@ == self@.watched_shader,
    {
        self.watch.shader_path()
    }

    pub fn config_path(&self) -> (r: &AssetPath)
        ensures
            r@ == self@.config_path,
    {
        self.watch.config_path()
    }

    pub fn registry(&self) -> (r: &Registry)
        ensures
            r@ == self@.registry,
    {
        &self.registry
    }

    /// Whether the event concerns the config file, in which case the host
    /// must re-read and re-parse it before handing the pass its outcomes.
    pub fn needs_config_reload(&self, event: &FsEvent) -> (r: bool)
        ensures
            r == (event_path(event@) == Some(self@.config_path)),
    {
        match event {
            FsEvent::Changed(p) => p.same_as(self.watch.config_path()),
            FsEvent::Removed(p) => p.same_as(self.watch.config_path()),
            FsEvent::WatchError(_) => false,
        }
    }

    /// The shader path the coming pass will target: the incoming
    /// configuration's when one was re-read, the current one's otherwise.
    /// The host compiles this path.
    pub fn target_shader_path(&self, incoming: &Option<Config>) -> (r: AssetPath)
        ensures
            r@ == match incoming {
                Some(c) => c@.shader_path,
                None => self@.config.shader_path,
            },
    {
        match incoming {
            Some(c) => c.shader_path.clone(),
            None => self.config.shader_path.clone(),
        }
    }

    /// Runs one reload pass over the given event and outside outcomes.
    /// The state moves to exactly what the transition function says; the
    /// report carries the watch actions for the host to perform.
    pub fn process_pass(&mut self, event: &FsEvent, io: PassIo) -> (r: PassReport)
        requires
            old(self).wf(),
        ensures
            final(self).wf(),
            final(self)@ == pass_spec(old(self)@, event@, io@),
            opt_path(r.rewatch) == rewatch_spec(old(self)@, event@),
            match switch_spec(old(self)@, event@, io@) {
                Some(pair) => opt_path(r.unwatch) == Some(pair.0) && opt_path(r.watch) == Some(
                    pair.1,
                ),
                None => r.unwatch is None && r.watch is None,
            },
            r.adopted == adopt_spec(old(self)@, event@, io@),
    {
        let ghost pre = self@;
        let ghost iov = io@;
        let mut report = PassReport { rewatch: None, unwatch: None, watch: None, adopted: false };
        if self.inert {
            return report;
        }
        let path: &AssetPath = match event {
            FsEvent::Changed(p) => p,
            FsEvent::Removed(p) => {
                report.rewatch = Some(p.clone());
                p
            },
            FsEvent::WatchError(_) => {
                return report;
            },
        };
        // Stage one: re-read the configuration for an event on its path.
        if path.same_as(self.watch.config_path()) {
            match io.config {
                Some(c) => {
                    self.config = c;
                },
                None => {
                    return report;
                },
            }
        }
        proof {
            assert(Some(self@) == config_stage(pre, path@, iov));
        }
        // Stage two: move the shader watch when the target changed.
        let switch = match &self.artifact {
            Some(a) => !a.source_path.same_as(&self.config.shader_path),
            None => false,
        };
        if switch {
            let prev = self.watch.switch_shader(self.config.shader_path.clone());
            report.unwatch = Some(prev);
            report.watch = Some(self.config.shader_path.clone());
        }
        proof {
            assert(self@ == watch_stage(config_stage(pre, path@, iov).unwrap()));
        }
        // Stage three: adopt the new artifact only on compile success.
        let program = match io.compile {
            Some(p) => p,
            None => {
                return report;
            },
        };
        self.artifact = Some(Artifact { source_path: self.config.shader_path.clone(), program });
        report.adopted = true;
        // Library pass: re-read the manifest and inject every fragment.
        let entries = match io.manifest {
            Some(e) => e,
            None => {
                return report;
            },
        };
        inject_all(&mut self.registry, &entries, &io.fragments);
        report
    }
}

/// Injects each manifest entry's on-disk content into the registry, in
/// order, stopping at the first missing content; earlier injections stay.
fn inject_all(reg: &mut Registry, entries: &Vec<Vec<u8>>, frags: &Vec<Option<Vec<u8>>>)
    requires
        old(reg).wf(),
    ensures
        final(reg).wf(),
        final(reg)@ == inject_from(old(reg)@, entries.deep_view(), frags.deep_view(), 0),
{
    let mut i: usize = 0;
    while i < entries.len()
        invariant
            i <= entries.len(),
            reg.wf(),
            inject_from(old(reg)@, entries.deep_view(), frags.deep_view(), 0) == inject_from(
                reg@,
                entries.deep_view(),
                frags.deep_view(),
                i as int,
            ),
        decreases entries.len() - i,
    {
        if i >= frags.len() {
            return ;
        }
        let content = match &frags[i] {
            Some(c) => c,
            None => {
                return ;
            },
        };
        let ghost reg_before = reg@;
        reg.add(copy_bytes(&entries[i]), copy_bytes(content));
        proof {
            assert(entries.deep_view()[i as int] == entries@[i as int]@);
            assert(frags.deep_view()[i as int] == Some(content@));
            assert(inject_from(reg_before, entries.deep_view(), frags.deep_view(), i as int)
                == inject_from(reg@, entries.deep_view(), frags.deep_view(), i + 1));
        }
        i = i + 1;
    }
}

} // verus!
