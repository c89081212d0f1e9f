//! The engine's own state: the event paths found in the banks loaded, the
//! identifier of the asset they came from, and the listener's pose as last
//! accepted by the middleware.

use vstd::prelude::*;
use vstd::string::StrSliceExecFns;

use u64_id::U64Id;

use crate::error::Error;
use crate::flags::{Init, StudioInit, INIT_RIGHTHANDED_3D, STUDIO_INIT_LIVEUPDATE};
use crate::load::{BankLoad, LoadAction};
use crate::space::{Vec2Bits, F32_ZERO};

verus! {

/// Relies on u64_id's `U64Id`, the identifier of the asset that the banks
/// were loaded from; the engine only stores it.
#[verifier::external_type_specification]
#[verifier::external_body]
pub struct ExU64Id(U64Id);

/// The number of channels the middleware is initialised with.
pub const MAX_CHANNELS: i32 = 1024;

/// How the studio system is initialised.
#[derive(Debug, Clone, Copy, PartialEq, Eq, Structural)]
pub struct InitSettings {
    pub max_channels: i32,
    pub studio_flags: StudioInit,
    pub flags: Init,
}

/// The settings for a new engine: a fixed channel budget, a right-handed 3D
/// convention, and live update exactly when it is asked for.
pub fn init_settings(live_update: bool) -> (s: InitSettings)
    ensures
        s.max_channels == MAX_CHANNELS,
        s.studio_flags@ == (if live_update {
            STUDIO_INIT_LIVEUPDATE
        } else {
            0
        }),
        s.flags@ == INIT_RIGHTHANDED_3D,
{
    let normal = StudioInit::empty();
    let studio_flags = if live_update {
        normal.union(StudioInit::from_bits_truncate(STUDIO_INIT_LIVEUPDATE))
    } else {
        normal
    };
    assert(0u32 | (STUDIO_INIT_LIVEUPDATE & 0x3f) == STUDIO_INIT_LIVEUPDATE) by (bit_vector);
    assert(INIT_RIGHTHANDED_3D & 0x007f_030f == INIT_RIGHTHANDED_3D) by (bit_vector);
    InitSettings {
        max_channels: MAX_CHANNELS,
        studio_flags,
        flags: Init::from_bits_truncate(INIT_RIGHTHANDED_3D),
    }
}

/// The prefix of every path in the middleware's event namespace.
pub open spec fn event_prefix() -> Seq<char> {
    seq!['e', 'v', 'e', 'n', 't', ':', '/']
}

/// A path in the middleware's event namespace: it starts with `event:/`.
pub open spec fn is_event_path_spec(name: Seq<char>) -> bool {
    name.len() >= 7 && name.subrange(0, 7) == event_prefix()
}

/// Whether `name` lies in the event namespace.
pub fn is_event_path(name: &str) -> (b: bool)
    ensures
        b == is_event_path_spec(name@),
{
    let prefix = "event:/";
    proof {
        reveal_strlit("event:/");
        assert(prefix@ =~= event_prefix());
    }
    let n = name.unicode_len();
    if n < 7 {
        return false;
    }
    let mut i: usize = 0;
    while i < 7
        invariant
            i <= 7,
            n == name@.len(),
            n >= 7,
            prefix@ == event_prefix(),
            name@.subrange(0, i as int) == prefix@.subrange(0, i as int),
        decreases 7 - i,
    {
        if name.get_char(i) != prefix.get_char(i) {
            assert(name@.subrange(0, 7)[i as int] != prefix@[i as int]);
            assert(name@.subrange(0, 7) != prefix@);
            return false;
        }
        assert(name@.subrange(0, i + 1) =~= name@.subrange(0, i as int).push(name@[i as int]));
        assert(prefix@.subrange(0, i + 1) =~= prefix@.subrange(0, i as int).push(
            prefix@[i as int],
        ));
        i = i + 1;
    }
    assert(prefix@.subrange(0, 7) =~= prefix@);
    true
}

/// The state that the engine keeps beside its middleware handle.
pub struct EngineState {
    event_names: Vec<String>,
    asset_id: Option<U64Id>,
    listener_position: Vec2Bits,
    listener_velocity: Vec2Bits,
}

impl EngineState {
    /// The event paths found so far, in the order found.
    pub closed spec fn names(&self) -> Seq<String> {
        self.event_names@
    }

    /// The asset the content was loaded from; `None` until a load succeeds.
    pub closed spec fn asset(&self) -> Option<U64Id> {
        self.asset_id
    }

    /// The listener position last accepted by the middleware.
    pub closed spec fn position(&self) -> Vec2Bits {
        self.listener_position
    }

    /// The listener velocity last accepted by the middleware.
    pub closed spec fn velocity(&self) -> Vec2Bits {
        self.listener_velocity
    }

    /// The state of a new engine: nothing loaded, and the listener at rest
    /// at the origin.
    pub fn new() -> (s: EngineState)
        ensures
            s.names().len() == 0,
            s.asset() is None,
            s.position() == (Vec2Bits { x: F32_ZERO, y: F32_ZERO }),
            s.velocity() == (Vec2Bits { x: F32_ZERO, y: F32_ZERO }),
    {
        EngineState {
            event_names: Vec::new(),
            asset_id: None,
            listener_position: Vec2Bits::zero(),
            listener_velocity: Vec2Bits::zero(),
        }
    }

    /// The event paths found in the banks loaded, in bank order and, within
    /// a bank, in the order the bank lists them.
    pub fn event_names(&self) -> (r: &[String])
        ensures
            r@ == self.names(),
    {
        self.event_names.as_slice()
    }

    /// The asset the content was loaded from.
    pub fn asset_id(&self) -> (r: Option<U64Id>)
        ensures
            r == self.asset(),
    {
        self.asset_id
    }

    /// The listener position last accepted by the middleware.
    pub fn listener_position(&self) -> (r: Vec2Bits)
        ensures
            r == self.position(),
    {
        self.listener_position
    }

    /// The listener velocity last accepted by the middleware.
    pub fn listener_velocity(&self) -> (r: Vec2Bits)
        ensures
            r == self.velocity(),
    {
        self.listener_velocity
    }

    /// Whether the per-frame update reaches the middleware: only once
    /// content has been loaded.
    pub fn should_update(&self) -> (b: bool)
        ensures
            b <==> self.asset() is Some,
    {
        self.asset_id.is_some()
    }

    /// Takes in the outcome of the middleware call that set the listener's
    /// attributes to `position` and `velocity`. The pose is kept only when
    /// the call succeeded; the outcome is handed back.
    pub fn commit_listener(
        &mut self,
        position: Vec2Bits,
        velocity: Vec2Bits,
        outcome: Result<(), Error>,
    ) -> (r: Result<(), Error>)
        ensures
            r == outcome,
            final(self).names() == old(self).names(),
            final(self).asset() == old(self).asset(),
            outcome is Ok ==> final(self).position() == position && final(self).velocity()
                == velocity,
            outcome is Err ==> final(self).position() == old(self).position()
                && final(self).velocity() == old(self).velocity(),
    {
        if outcome.is_ok() {
            self.listener_position = position;
            self.listener_velocity = velocity;
        }
        outcome
    }

    /// Takes in a successful unload of every bank: no content is loaded any
    /// more, so no event path is known and no asset is recorded. The
    /// listener pose stays.
    pub fn banks_unloaded(&mut self)
        ensures
            final(self).names().len() == 0,
            final(self).asset() is None,
            final(self).position() == old(self).position(),
            final(self).velocity() == old(self).velocity(),
    {
        self.event_names = Vec::new();
        self.asset_id = None;
    }

    /// Takes in a finished bank load from `asset_id`. Every path it found
    /// that is not known yet is added after the paths already known, in the
    /// order found, also when the load failed part way, since the banks
    /// loaded before the failure stay loaded. A path is never added twice.
    /// The asset is recorded only when every bank loaded; then every path
    /// of every bank is known.
    pub fn finish_load(&mut self, asset_id: U64Id, load: BankLoad) -> (r: Result<(), Error>)
        ensures
            texts(final(self).names()) == merged(texts(old(self).names()), texts(load.found_spec())),
            texts(old(self).names()).no_duplicates() ==> texts(final(self).names()).no_duplicates(),
            forall|p: Seq<char>|
                #![trigger texts(final(self).names()).contains(p)]
                texts(final(self).names()).contains(p) <==> texts(old(self).names()).contains(p)
                    || texts(load.found_spec()).contains(p),
            final(self).position() == old(self).position(),
            final(self).velocity() == old(self).velocity(),
            load.failure_spec() is None ==> r is Ok && final(self).asset() == Some(asset_id),
            load.failure_spec() matches Some(e) ==> r == Err::<(), Error>(e) && final(self).asset()
                == old(self).asset(),
            load.wf() && load.action_spec() == LoadAction::Finish && load.failure_spec() is None
                ==> load.found_spec() == load.paths_by_bank().flatten()
                && load.paths_by_bank().len() == load.bank_count_spec(),
    {
        proof {
            if load.wf() && load.action_spec() == LoadAction::Finish && load.failure_spec() is None {
                load.lemma_complete_load();
            }
        }
        let (found, failure) = load.into_parts();
        let ghost known = texts(self.event_names@);
        let mut i: usize = 0;
        while i < found.len()
            invariant
                i <= found@.len(),
                texts(self.event_names@) == merged(known, texts(found@.subrange(0, i as int))),
                self.asset_id == old(self).asset_id,
                self.listener_position == old(self).listener_position,
                self.listener_velocity == old(self).listener_velocity,
            decreases found@.len() - i,
        {
            let ghost before = self.event_names@;
            let present = contains_text(&self.event_names, &found[i]);
            if !present {
                self.event_names.push(found[i].clone());
            }
            proof {
                let step = texts(found@.subrange(0, i + 1));
                assert(step.drop_last() =~= texts(found@.subrange(0, i as int)));
                assert(step.last() == found@[i as int]@);
                assert(texts(before.push(found@[i as int])) =~= texts(before).push(found@[i as int]@));
            }
            i = i + 1;
        }
        proof {
            assert(found@.subrange(0, found@.len() as int) =~= found@);
            lemma_merged(known, texts(found@));
        }
        match failure {
            None => {
                self.asset_id = Some(asset_id);
                Ok(())
            },
            Some(e) => Err(e),
        }
    }
}

/// The texts of a sequence of strings.
pub open spec fn texts(names: Seq<String>) -> Seq<Seq<char>> {
    names.map_values(|s: String| s@)
}

/// `known` followed by each path of `found` that is neither in `known` nor
/// earlier in `found`, in the order of `found`.
pub open spec fn merged(known: Seq<Seq<char>>, found: Seq<Seq<char>>) -> Seq<Seq<char>>
    decreases found.len(),
{
    if found.len() == 0 {
        known
    } else {
        let m = merged(known, found.drop_last());
        if m.contains(found.last()) {
            m
        } else {
            m.push(found.last())
        }
    }
}

/// Merging keeps what was known as a prefix, holds exactly the paths that
/// were known or found, and adds no duplicate.
pub proof fn lemma_merged(known: Seq<Seq<char>>, found: Seq<Seq<char>>)
    ensures
        merged(known, found).len() >= known.len(),
        merged(known, found).subrange(0, known.len() as int) == known,
        forall|p: Seq<char>| #[trigger]
            merged(known, found).contains(p) <==> known.contains(p) || found.contains(p),
        known.no_duplicates() ==> merged(known, found).no_duplicates(),
    decreases found.len(),
{
    if found.len() == 0 {
        assert(known.subrange(0, known.len() as int) =~= known);
    } else {
        let rest = found.drop_last();
        lemma_merged(known, rest);
        let m = merged(known, rest);
        let last = found.last();
        assert(found =~= rest.push(last));
        assert forall|p: Seq<char>| found.contains(p) <==> rest.contains(p) || p == last by {
            if found.contains(p) {
                let k = choose|k: int| 0 <= k < found.len() && found[k] == p;
                if k < rest.len() {
                    assert(rest[k] == p);
                }
            }
            if rest.contains(p) {
                let k = choose|k: int| 0 <= k < rest.len() && rest[k] == p;
                assert(found[k] == p);
            }
            if p == last {
                assert(found[found.len() - 1] == p);
            }
        }
        assert forall|p: Seq<char>| m.push(last).contains(p) <==> m.contains(p) || p == last by {
            if m.push(last).contains(p) {
                let k = choose|k: int| 0 <= k < m.len() + 1 && m.push(last)[k] == p;
                if k < m.len() {
                    assert(m[k] == p);
                }
            }
            if m.contains(p) {
                let k = choose|k: int| 0 <= k < m.len() && m[k] == p;
                assert(m.push(last)[k] == p);
            }
            if p == last {
                assert(m.push(last)[m.len() as int] == p);
            }
        }
        assert forall|p: Seq<char>|
            merged(known, found).contains(p) <==> known.contains(p) || found.contains(p) by {
            assert(m.contains(p) <==> known.contains(p) || rest.contains(p));
            if m.contains(last) {
                assert(merged(known, found) == m);
            } else {
                assert(merged(known, found) == m.push(last));
            }
        }
        if !m.contains(last) {
            assert(m.push(last).subrange(0, known.len() as int) =~= m.subrange(
                0,
                known.len() as int,
            ));
        }
    }
}

/// Whether the text of `p` is among the texts of `names`.
fn contains_text(names: &Vec<String>, p: &String) -> (b: bool)
    ensures
        b == texts(names@).contains(p@),
{
    let mut i: usize = 0;
    while i < names.len()
        invariant
            i <= names@.len(),
            forall|k: int| 0 <= k < i ==> names@[k]@ != p@,
        decreases names@.len() - i,
    {
        if names[i] == *p {
            assert(texts(names@)[i as int] == p@);
            return true;
        }
        i = i + 1;
    }
    assert(!texts(names@).contains(p@)) by {
        if texts(names@).contains(p@) {
            let k = choose|k: int| 0 <= k < texts(names@).len() && texts(names@)[k] == p@;
            assert(names@[k]@ == p@);
        }
    }
    false
}

} // verus!
