use vstd::prelude::*;

use crate::controller::ArtifactV;
use crate::controller::EventV;
use crate::controller::IoV;
use crate::controller::StateV;
use crate::controller::compile_stage;
use crate::controller::config_stage;
use crate::controller::event_path;
use crate::controller::inject_from;
use crate::controller::pass_spec;
use crate::controller::switch_spec;
use crate::controller::watch_stage;

verus! {

/// No manifest entry occurs twice from position `i` on.
pub open spec fn distinct_entries_from(entries: Seq<Seq<u8>>, i: int) -> bool {
    forall|a: int, b: int| i <= a < b < entries.len() ==> entries[a] != entries[b]
}

/// Inserting a key that the remaining entries never inject commutes with
/// the injection fold.
proof fn lemma_inject_insert_commute(
    reg: Map<Seq<u8>, Seq<u8>>,
    entries: Seq<Seq<u8>>,
    frags: Seq<Option<Seq<u8>>>,
    i: int,
    k: Seq<u8>,
    c: Seq<u8>,
)
    requires
        forall|j: int| i <= j < entries.len() ==> entries[j] != k,
    ensures
        inject_from(reg.insert(k, c), entries, frags, i) == inject_from(reg, entries, frags, i)
            .insert(k, c),
    decreases entries.len() - i,
{
    if i < 0 || i >= entries.len() || i >= frags.len() {
    } else {
        match frags[i] {
            Some(c2) => {
                assert(entries[i] != k);
                assert(reg.insert(k, c).insert(entries[i], c2) =~= reg.insert(entries[i], c2)
                    .insert(k, c));
                lemma_inject_insert_commute(reg.insert(entries[i], c2), entries, frags, i + 1, k, c);
            },
            None => {},
        }
    }
}

/// Running the injection fold a second time over the same entries and
/// contents changes nothing.
proof fn lemma_inject_idempotent(
    reg: Map<Seq<u8>, Seq<u8>>,
    entries: Seq<Seq<u8>>,
    frags: Seq<Option<Seq<u8>>>,
    i: int,
)
    requires
        distinct_entries_from(entries, i),
    ensures
        inject_from(inject_from(reg, entries, frags, i), entries, frags, i) == inject_from(
            reg,
            entries,
            frags,
            i,
        ),
    decreases entries.len() - i,
{
    if i < 0 || i >= entries.len() || i >= frags.len() {
    } else {
        match frags[i] {
            Some(c) => {
                let k = entries[i];
                let r = inject_from(reg.insert(k, c), entries, frags, i + 1);
                assert(forall|j: int| i + 1 <= j < entries.len() ==> entries[j] != k);
                lemma_inject_insert_commute(reg, entries, frags, i + 1, k, c);
                assert(r == inject_from(reg, entries, frags, i + 1).insert(k, c));
                assert(r.contains_key(k) && r[k] == c);
                assert(r.insert(k, c) =~= r);
                assert(distinct_entries_from(entries, i + 1));
                lemma_inject_idempotent(reg.insert(k, c), entries, frags, i + 1);
                assert(inject_from(r, entries, frags, i + 1) == r);
                assert(inject_from(r, entries, frags, i) == inject_from(r.insert(k, c), entries, frags, i + 1));
            },
            None => {},
        }
    }
}

/// After any pass, either the active artifact is exactly the one from
/// before — every failed pass — or it was compiled this pass from the
/// currently configured shader path: never a mix of new path and old
/// content or the other way round.
pub proof fn lemma_pass_artifact_coherent(pre: StateV, event: EventV, io: IoV)
    ensures
        pass_spec(pre, event, io).artifact == pre.artifact || (match pass_spec(
            pre,
            event,
            io,
        ).artifact {
            Some(a) => a.source == pass_spec(pre, event, io).config.shader_path && io.compile
                == Some(a.program),
            None => false,
        }),
{
}

/// Processing the same event with the same outside outcomes a second time
/// leaves the state exactly where the first pass put it, provided the
/// manifest lists each fragment once — the library index's own invariant.
pub proof fn lemma_pass_idempotent(pre: StateV, event: EventV, io: IoV)
    requires
        match io.manifest {
            Some(entries) => distinct_entries_from(entries, 0),
            None => true,
        },
    ensures
        pass_spec(pass_spec(pre, event, io), event, io) == pass_spec(pre, event, io),
{
    let post = pass_spec(pre, event, io);
    if pre.inert {
    } else {
        match event_path(event) {
            Some(p) => {
                match config_stage(pre, p, io) {
                    Some(s1) => {
                        let s2 = watch_stage(s1);
                        assert(post == compile_stage(s2, io));
                        assert(post.config_path == pre.config_path);
                        assert(!post.inert);
                        match config_stage(post, p, io) {
                            Some(t1) => {
                                assert(t1 == post);
                                let t2 = watch_stage(t1);
                                match io.compile {
                                    Some(prog) => {
                                        assert(post.artifact == Some(
                                            ArtifactV {
                                                source: post.config.shader_path,
                                                program: prog,
                                            },
                                        ));
                                        assert(t2 == post);
                                        match io.manifest {
                                            Some(entries) => {
                                                lemma_inject_idempotent(
                                                    s2.registry,
                                                    entries,
                                                    io.fragments,
                                                    0,
                                                );
                                                assert(compile_stage(t2, io) == post);
                                            },
                                            None => {
                                                assert(compile_stage(t2, io) == post);
                                            },
                                        }
                                    },
                                    None => {
                                        assert(post.artifact == s1.artifact);
                                        assert(t2 == post);
                                        assert(compile_stage(t2, io) == post);
                                    },
                                }
                            },
                            None => {
                                assert(false);
                            },
                        }
                    },
                    None => {},
                }
            },
            None => {},
        }
    }
}

/// Last known good: when compilation fails, the active artifact after the
/// pass is exactly the artifact from before it, whatever else the event
/// and the other outcomes were.
pub proof fn lemma_last_known_good(pre: StateV, event: EventV, io: IoV)
    requires
        io.compile is None,
    ensures
        pass_spec(pre, event, io).artifact == pre.artifact,
        pass_spec(pre, event, io).registry == pre.registry,
{
}

/// A removal of a path drives the state to exactly where a plain change
/// of the same path drives it; the removal additionally asks the host to
/// re-subscribe the path, which the report of the processing function
/// carries.
pub proof fn lemma_removed_like_changed(pre: StateV, p: Seq<u8>, io: IoV)
    ensures
        pass_spec(pre, EventV::Removed(p), io) == pass_spec(pre, EventV::Changed(p), io),
{
}

/// The watch always tracks the configured shader: the watched path or the
/// active artifact's source equals the configured shader path, and every
/// pass preserves this.
pub open spec fn watch_linked(s: StateV) -> bool {
    match s.artifact {
        Some(a) => s.watched_shader == s.config.shader_path || a.source == s.config.shader_path,
        None => true,
    }
}

pub proof fn lemma_watch_link_preserved(pre: StateV, event: EventV, io: IoV)
    requires
        watch_linked(pre),
    ensures
        watch_linked(pass_spec(pre, event, io)),
{
}

/// The watch-set invariant: starting from a state whose single watched
/// shader path matches the active artifact's source, any pass that
/// reaches a shader reload attempt leaves the one watched shader path
/// equal to the configuration's resolved shader path.
pub proof fn lemma_watch_follows_config(pre: StateV, event: EventV, io: IoV)
    requires
        !pre.inert,
        event_path(event) is Some,
        config_stage(pre, event_path(event).unwrap(), io) is Some,
        match pre.artifact {
            Some(a) => a.source == pre.watched_shader,
            None => false,
        },
    ensures
        pass_spec(pre, event, io).watched_shader == pass_spec(pre, event, io).config.shader_path,
        io.compile is Some ==> match pass_spec(pre, event, io).artifact {
            Some(a) => a.source == pass_spec(pre, event, io).watched_shader,
            None => false,
        },
{
}

/// Config-triggers-cascade: a successful config reload that moves the
/// shader path from A to B unwatches A, watches B, and — when B compiles
/// — makes the active artifact the one built from B.
pub proof fn lemma_config_cascade(pre: StateV, c: crate::config::ConfigV, prog: u64, io: IoV)
    requires
        !pre.inert,
        io.config == Some(c),
        io.compile == Some(prog),
        match pre.artifact {
            Some(a) => a.source != c.shader_path,
            None => false,
        },
    ensures
        pass_spec(pre, EventV::Changed(pre.config_path), io).config == c,
        pass_spec(pre, EventV::Changed(pre.config_path), io).watched_shader == c.shader_path,
        pass_spec(pre, EventV::Changed(pre.config_path), io).artifact == Some(
            ArtifactV { source: c.shader_path, program: prog },
        ),
        switch_spec(pre, EventV::Changed(pre.config_path), io) == Some(
            (pre.watched_shader, c.shader_path),
        ),
{
}

/// What a pass never touches: the config path and the frame clock are
/// fixed, and the library watch category stays the startup set — manifest
/// changes are re-read for injection but never re-subscribed, a known
/// limitation kept deliberately.
pub proof fn lemma_pass_fixed_parts(pre: StateV, event: EventV, io: IoV)
    ensures
        pass_spec(pre, event, io).config_path == pre.config_path,
        pass_spec(pre, event, io).library_watches == pre.library_watches,
        pass_spec(pre, event, io).elapsed_ns == pre.elapsed_ns,
        pass_spec(pre, event, io).inert == pre.inert,
{
}

} // verus!
