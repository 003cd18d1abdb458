//! Custom video rendering: reference-counted asset interfaces and the
//! frame-streaming discipline.
//!
//! The engine hands out COM-like interface pointers whose reference counts
//! it keeps.  Here the asset world is an explicit store — the per-asset
//! counts, liveness, streaming state and named-interface tables — and the
//! wrappers state exactly how each call moves those counts.  A separate
//! worker state machine captures the one safe way to push frames from
//! another thread: render only while the destination reports itself alive,
//! and stop for good at the first dead poll.

use vstd::prelude::*;

verus! {

/// Color space of streamed video frames.
#[allow(non_camel_case_types)]
#[derive(Clone, Copy, PartialEq, Eq, Structural, Debug)]
pub enum COLOR_SPACE {
    /// Unknown.
    Unknown,
    /// YV12.
    Yv12,
    /// IYUV (also known as I420).
    Iyuv,
    /// NV12.
    Nv12,
    /// YUY2.
    Yuy2,
    /// RGB 24 bits per pixel.
    Rgb24,
    /// RGB 5-5-5.
    Rgb555,
    /// RGB 5-6-5.
    Rgb565,
    /// RGB 32 bits per pixel.
    Rgb32,
}

/// The engine's asset world: per-asset reference counts, liveness and
/// streaming state, the frames each destination has rendered, playback
/// state for sources, and each asset's named-interface table.  An asset
/// handle is one plus the asset's index; `0` stands for no asset.
pub struct AssetStore {
    /// Reference count of each asset.
    pub refs: Vec<u64>,
    /// Whether each asset is attached to a live rendering site.
    pub alive: Vec<bool>,
    /// Whether each asset is currently streaming.
    pub streaming: Vec<bool>,
    /// Number of frames rendered to each asset.
    pub frames: Vec<u64>,
    /// Whether each asset (as a source) is playing.
    pub playing: Vec<bool>,
    /// Whether each asset (as a source) has reached its end.
    pub ended: Vec<bool>,
    /// Named interfaces of each asset: name paired with the handle the
    /// query answers.
    pub ifaces: Vec<Vec<(String, u64)>>,
}

/// The handle the first matching entry of an interface table answers.
pub open spec fn spec_iface_lookup(entries: Seq<(String, u64)>, name: Seq<char>) -> Option<u64>
    decreases entries.len(),
{
    if entries.len() == 0 {
        None
    } else if entries[0].0@ == name {
        Some(entries[0].1)
    } else {
        spec_iface_lookup(entries.drop_first(), name)
    }
}

impl AssetStore {
    /// All per-asset vectors agree in length.
    pub open spec fn wf(&self) -> bool {
        &&& self.alive@.len() == self.refs@.len()
        &&& self.streaming@.len() == self.refs@.len()
        &&& self.frames@.len() == self.refs@.len()
        &&& self.playing@.len() == self.refs@.len()
        &&& self.ended@.len() == self.refs@.len()
        &&& self.ifaces@.len() == self.refs@.len()
    }

    /// Whether `id` is a handle of an asset of this store.
    pub open spec fn valid(&self, id: u64) -> bool {
        1 <= id <= self.refs@.len()
    }

    /// The asset index of a handle.
    pub open spec fn idx_of(&self, id: u64) -> int {
        id - 1
    }

    /// An empty asset world.
    pub fn new() -> (r: AssetStore)
        ensures
            r.wf(),
            r.refs@.len() == 0,
    {
        AssetStore {
            refs: Vec::new(),
            alive: Vec::new(),
            streaming: Vec::new(),
            frames: Vec::new(),
            playing: Vec::new(),
            ended: Vec::new(),
            ifaces: Vec::new(),
        }
    }

    /// Make a new asset with one outstanding reference, as the engine
    /// hands assets over, and answer its handle.
    pub fn create_asset(&mut self, alive: bool) -> (id: u64)
        requires
            old(self).wf(),
            old(self).refs@.len() < u64::MAX - 1,
        ensures
            final(self).wf(),
            id == old(self).refs@.len() + 1,
            final(self).valid(id),
            final(self).refs@ == old(self).refs@.push(1u64),
            final(self).alive@ == old(self).alive@.push(alive),
            final(self).streaming@ == old(self).streaming@.push(false),
            final(self).frames@ == old(self).frames@.push(0u64),
            final(self).playing@ == old(self).playing@.push(false),
            final(self).ended@ == old(self).ended@.push(false),
            final(self).ifaces@.len() == old(self).ifaces@.len() + 1,
            final(self).ifaces@.last()@.len() == 0,
            final(self).ifaces@.subrange(0, old(self).ifaces@.len() as int) == old(self).ifaces@,
    {
        let id = self.refs.len() as u64 + 1;
        self.refs.push(1);
        self.alive.push(alive);
        self.streaming.push(false);
        self.frames.push(0);
        self.playing.push(false);
        self.ended.push(false);
        self.ifaces.push(Vec::new());
        id
    }

    /// The asset index of a valid handle, as a vector index.
    pub fn index(&self, id: u64) -> (idx: usize)
        requires
            self.valid(id),
        ensures
            idx == self.idx_of(id),
            idx < self.refs@.len(),
    {
        let bound = self.refs.len();
        (id - 1) as usize
    }

    /// Record that asset `from` answers the interface `name` with the
    /// asset `to`.
    pub fn link_interface(&mut self, from: u64, name: &str, to: u64)
        requires
            old(self).wf(),
            old(self).valid(from),
        ensures
            final(self).wf(),
            final(self).refs@ == old(self).refs@,
            final(self).alive@ == old(self).alive@,
            final(self).streaming@ == old(self).streaming@,
            final(self).frames@ == old(self).frames@,
            final(self).playing@ == old(self).playing@,
            final(self).ended@ == old(self).ended@,
            final(self).ifaces@.len() == old(self).ifaces@.len(),
            final(self).ifaces@[old(self).idx_of(from)]@.len() == old(self).ifaces@[old(
                self,
            ).idx_of(from)]@.len() + 1,
            final(self).ifaces@[old(self).idx_of(from)]@.subrange(
                0,
                old(self).ifaces@[old(self).idx_of(from)]@.len() as int,
            ) == old(self).ifaces@[old(self).idx_of(from)]@,
            final(self).ifaces@[old(self).idx_of(from)]@.last().0@ == name@,
            final(self).ifaces@[old(self).idx_of(from)]@.last().1 == to,
            forall|k: int|
                0 <= k < old(self).ifaces@.len() && k != old(self).idx_of(from)
                    ==> final(self).ifaces@[k] == old(self).ifaces@[k],
    {
        let idx = self.index(from);
        let mut table: Vec<(String, u64)> = Vec::new();
        let source = &self.ifaces[idx];
        let mut i: usize = 0;
        while i < source.len()
            invariant
                i <= source@.len(),
                table@ == source@.subrange(0, i as int),
            decreases source@.len() - i,
        {
            let pair = (source[i].0.clone(), source[i].1);
            table.push(pair);
            proof {
                assert(table@ =~= source@.subrange(0, i as int + 1));
            }
            i = i + 1;
        }
        proof {
            assert(table@ =~= source@);
        }
        table.push((name.to_owned(), to));
        vstd::std_specs::core::index_set(&mut self.ifaces, idx, table);
    }

    /// Flip the liveness of an asset, as the engine does when the owning
    /// element appears or goes away.
    pub fn set_alive(&mut self, id: u64, is_alive: bool)
        requires
            old(self).wf(),
            old(self).valid(id),
        ensures
            final(self).wf(),
            final(self).alive@ == old(self).alive@.update(old(self).idx_of(id), is_alive),
            final(self).refs@ == old(self).refs@,
            final(self).streaming@ == old(self).streaming@,
            final(self).frames@ == old(self).frames@,
            final(self).playing@ == old(self).playing@,
            final(self).ended@ == old(self).ended@,
            final(self).ifaces@ == old(self).ifaces@,
    {
        let idx = self.index(id);
        vstd::std_specs::core::index_set(&mut self.alive, idx, is_alive);
    }
}

/// COM-like base interface of a video asset: reference counting and the
/// named-interface query.
#[allow(non_camel_case_types)]
#[derive(Clone, Copy, PartialEq, Eq, Structural, Debug)]
pub struct iasset {
    /// The asset handle.
    pub id: u64,
}

impl iasset {
    /// Increment the asset's reference count and answer the new count.
    pub fn add_ref(&self, store: &mut AssetStore) -> (r: u64)
        requires
            old(store).wf(),
            old(store).valid(self.id),
            old(store).refs@[old(store).idx_of(self.id)] < u64::MAX,
        ensures
            final(store).wf(),
            final(store).refs@ == old(store).refs@.update(
                old(store).idx_of(self.id),
                (old(store).refs@[old(store).idx_of(self.id)] + 1) as u64,
            ),
            r == old(store).refs@[old(store).idx_of(self.id)] + 1,
            final(store).alive@ == old(store).alive@,
            final(store).streaming@ == old(store).streaming@,
            final(store).frames@ == old(store).frames@,
            final(store).playing@ == old(store).playing@,
            final(store).ended@ == old(store).ended@,
            final(store).ifaces@ == old(store).ifaces@,
    {
        let idx = store.index(self.id);
        let n = store.refs[idx] + 1;
        vstd::std_specs::core::index_set(&mut store.refs, idx, n);
        n
    }

    /// Decrement the asset's reference count and answer the new count.
    pub fn release(&self, store: &mut AssetStore) -> (r: u64)
        requires
            old(store).wf(),
            old(store).valid(self.id),
            old(store).refs@[old(store).idx_of(self.id)] > 0,
        ensures
            final(store).wf(),
            final(store).refs@ == old(store).refs@.update(
                old(store).idx_of(self.id),
                (old(store).refs@[old(store).idx_of(self.id)] - 1) as u64,
            ),
            r == old(store).refs@[old(store).idx_of(self.id)] - 1,
            final(store).alive@ == old(store).alive@,
            final(store).streaming@ == old(store).streaming@,
            final(store).frames@ == old(store).frames@,
            final(store).playing@ == old(store).playing@,
            final(store).ended@ == old(store).ended@,
            final(store).ifaces@ == old(store).ifaces@,
    {
        let idx = store.index(self.id);
        let n = store.refs[idx] - 1;
        vstd::std_specs::core::index_set(&mut store.refs, idx, n);
        n
    }

    /// Query a named interface on the asset; the count of the answered
    /// asset is not touched — taking a reference is the caller's business.
    pub fn get_interface(&self, store: &AssetStore, name: &str) -> (r: Option<iasset>)
        requires
            store.wf(),
            store.valid(self.id),
        ensures
            match spec_iface_lookup(store.ifaces@[store.idx_of(self.id)]@, name@) {
                Some(id) => r matches Some(a) && a.id == id,
                None => r is None,
            },
    {
        let idx = store.index(self.id);
        let owned: String = name.to_owned();
        let table = &store.ifaces[idx];
        let mut i: usize = 0;
        proof {
            assert(table@.skip(0) =~= table@);
        }
        while i < table.len()
            invariant
                store.wf(),
                store.valid(self.id),
                idx == store.idx_of(self.id),
                table@ == store.ifaces@[store.idx_of(self.id)]@,
                i <= table@.len(),
                owned@ == name@,
                spec_iface_lookup(table@, name@) == spec_iface_lookup(
                    table@.skip(i as int),
                    name@,
                ),
            decreases table@.len() - i,
        {
            proof {
                assert(table@.skip(i as int).drop_first() =~= table@.skip(i as int + 1));
            }
            if table[i].0 == owned {
                return Some(iasset { id: table[i].1 });
            }
            i = i + 1;
        }
        proof {
            assert(table@.skip(i as int) =~= Seq::<(String, u64)>::empty());
        }
        None
    }
}

/// A typed view over an asset: it knows its interface name and carries
/// the asset handle.
pub trait NamedInterface: Sized {
    /// The interface's wire name.
    spec fn spec_name() -> Seq<char>;

    /// The asset handle this view carries.
    spec fn spec_id(&self) -> u64;

    /// The interface's wire name.
    fn get_interface_name() -> (r: &'static str)
        ensures
            r@ == Self::spec_name(),
    ;

    /// Wrap an asset handle in this view.
    fn wrap(id: u64) -> (r: Self)
        ensures
            r.spec_id() == id,
    ;

    /// The asset handle this view carries.
    fn asset_id(&self) -> (r: u64)
        ensures
            r == self.spec_id(),
    ;

    /// Query this interface on another asset; answers the handle the
    /// asset's interface table gives for this interface's name, without
    /// touching any count.
    fn query_interface(store: &AssetStore, from: &iasset) -> (r: Option<iasset>)
        requires
            store.wf(),
            store.valid(from.id),
        ensures
            match spec_iface_lookup(store.ifaces@[store.idx_of(from.id)]@, Self::spec_name()) {
                Some(id) => r matches Some(a) && a.id == id,
                None => r is None,
            },
    {
        from.get_interface(store, Self::get_interface_name())
    }
}

/// Video source interface: the engine drives playback through it.
#[allow(non_camel_case_types)]
#[derive(Clone, Copy, PartialEq, Eq, Structural, Debug)]
pub struct video_source {
    /// The asset handle.
    pub asset: u64,
}

impl NamedInterface for video_source {
    open spec fn spec_name() -> Seq<char> {
        "source.video.sciter.com"@
    }

    open spec fn spec_id(&self) -> u64 {
        self.asset
    }

    fn get_interface_name() -> (r: &'static str) {
        "source.video.sciter.com"
    }

    fn wrap(id: u64) -> (r: Self) {
        video_source { asset: id }
    }

    fn asset_id(&self) -> (r: u64) {
        self.asset
    }
}

impl video_source {
    /// Start playback.
    pub fn play(&self, store: &mut AssetStore) -> (r: Result<(), ()>)
        requires
            old(store).wf(),
            old(store).valid(self.asset),
        ensures
            final(store).wf(),
            r is Ok,
            final(store).playing@ == old(store).playing@.update(old(store).idx_of(self.asset), true),
            final(store).refs@ == old(store).refs@,
            final(store).frames@ == old(store).frames@,
            final(store).alive@ == old(store).alive@,
            final(store).streaming@ == old(store).streaming@,
            final(store).ended@ == old(store).ended@,
            final(store).ifaces@ == old(store).ifaces@,
    {
        let idx = store.index(self.asset);
        vstd::std_specs::core::index_set(&mut store.playing, idx, true);
        Ok(())
    }

    /// Pause playback.
    pub fn pause(&self, store: &mut AssetStore) -> (r: Result<(), ()>)
        requires
            old(store).wf(),
            old(store).valid(self.asset),
        ensures
            final(store).wf(),
            r is Ok,
            final(store).playing@ == old(store).playing@.update(
                old(store).idx_of(self.asset),
                false,
            ),
            final(store).refs@ == old(store).refs@,
            final(store).frames@ == old(store).frames@,
    {
        let idx = store.index(self.asset);
        vstd::std_specs::core::index_set(&mut store.playing, idx, false);
        Ok(())
    }

    /// Stop playback and rewind to the end state.
    pub fn stop(&self, store: &mut AssetStore) -> (r: Result<(), ()>)
        requires
            old(store).wf(),
            old(store).valid(self.asset),
        ensures
            final(store).wf(),
            r is Ok,
            final(store).playing@ == old(store).playing@.update(
                old(store).idx_of(self.asset),
                false,
            ),
            final(store).refs@ == old(store).refs@,
            final(store).frames@ == old(store).frames@,
    {
        let idx = store.index(self.asset);
        vstd::std_specs::core::index_set(&mut store.playing, idx, false);
        Ok(())
    }

    /// Whether playback reached the end of the stream.
    pub fn is_ended(&self, store: &AssetStore) -> (r: Result<bool, ()>)
        requires
            store.wf(),
            store.valid(self.asset),
        ensures
            r == Ok::<bool, ()>(store.ended@[store.idx_of(self.asset)]),
    {
        let idx = store.index(self.asset);
        Ok(store.ended[idx])
    }
}

/// Video destination interface: the rendering site frames are pushed to.
#[allow(non_camel_case_types)]
#[derive(Clone, Copy, PartialEq, Eq, Structural, Debug)]
pub struct video_destination {
    /// The asset handle.
    pub asset: u64,
}

impl NamedInterface for video_destination {
    open spec fn spec_name() -> Seq<char> {
        "destination.video.sciter.com"@
    }

    open spec fn spec_id(&self) -> u64 {
        self.asset
    }

    fn get_interface_name() -> (r: &'static str) {
        "destination.video.sciter.com"
    }

    fn wrap(id: u64) -> (r: Self) {
        video_destination { asset: id }
    }

    fn asset_id(&self) -> (r: u64) {
        self.asset
    }
}

impl video_destination {
    /// Whether the rendering site is attached to a live element and can
    /// take frames.
    pub fn is_alive(&self, store: &AssetStore) -> (r: bool)
        requires
            store.wf(),
            store.valid(self.asset),
        ensures
            r == store.alive@[store.idx_of(self.asset)],
    {
        let idx = store.index(self.asset);
        store.alive[idx]
    }

    /// Start streaming frames of the given size and color space.
    pub fn start_streaming(
        &self,
        store: &mut AssetStore,
        frame_size: (i32, i32),
        color_space: COLOR_SPACE,
        src: Option<&video_source>,
    ) -> (r: Result<(), ()>)
        requires
            old(store).wf(),
            old(store).valid(self.asset),
        ensures
            final(store).wf(),
            r == (if old(store).alive@[old(store).idx_of(self.asset)] {
                Ok::<(), ()>(())
            } else {
                Err::<(), ()>(())
            }),
            r is Ok ==> final(store).streaming@ == old(store).streaming@.update(
                old(store).idx_of(self.asset),
                true,
            ),
            r is Err ==> *final(store) == *old(store),
            final(store).refs@ == old(store).refs@,
            final(store).frames@ == old(store).frames@,
            final(store).alive@ == old(store).alive@,
    {
        let idx = store.index(self.asset);
        if store.alive[idx] {
            vstd::std_specs::core::index_set(&mut store.streaming, idx, true);
            Ok(())
        } else {
            Err(())
        }
    }

    /// Stop streaming.
    pub fn stop_streaming(&self, store: &mut AssetStore) -> (r: Result<(), ()>)
        requires
            old(store).wf(),
            old(store).valid(self.asset),
        ensures
            final(store).wf(),
            r is Ok,
            final(store).streaming@ == old(store).streaming@.update(
                old(store).idx_of(self.asset),
                false,
            ),
            final(store).refs@ == old(store).refs@,
            final(store).frames@ == old(store).frames@,
            final(store).alive@ == old(store).alive@,
    {
        let idx = store.index(self.asset);
        vstd::std_specs::core::index_set(&mut store.streaming, idx, false);
        Ok(())
    }

    /// Render the next frame.  A dead or non-streaming site takes no
    /// frame and reports failure; in particular nothing is ever rendered
    /// to a site that reported itself not alive.
    pub fn render_frame(&self, store: &mut AssetStore, data: &[u8]) -> (r: Result<(), ()>)
        requires
            old(store).wf(),
            old(store).valid(self.asset),
            old(store).frames@[old(store).idx_of(self.asset)] < u64::MAX,
        ensures
            final(store).wf(),
            r == (if old(store).alive@[old(store).idx_of(self.asset)] && old(store).streaming@[old(
                store,
            ).idx_of(self.asset)] {
                Ok::<(), ()>(())
            } else {
                Err::<(), ()>(())
            }),
            r is Ok ==> final(store).frames@ == old(store).frames@.update(
                old(store).idx_of(self.asset),
                (old(store).frames@[old(store).idx_of(self.asset)] + 1) as u64,
            ),
            r is Err ==> *final(store) == *old(store),
            final(store).refs@ == old(store).refs@,
            final(store).alive@ == old(store).alive@,
            final(store).streaming@ == old(store).streaming@,
    {
        let idx = store.index(self.asset);
        if store.alive[idx] && store.streaming[idx] {
            let n = store.frames[idx] + 1;
            vstd::std_specs::core::index_set(&mut store.frames, idx, n);
            Ok(())
        } else {
            Err(())
        }
    }
}

/// Fragmented video destination interface: a rendering site that also
/// takes partial frame updates.
#[allow(non_camel_case_types)]
#[derive(Clone, Copy, PartialEq, Eq, Structural, Debug)]
pub struct fragmented_video_destination {
    /// The asset handle.
    pub asset: u64,
}

impl NamedInterface for fragmented_video_destination {
    open spec fn spec_name() -> Seq<char> {
        "fragmented.destination.video.sciter.com"@
    }

    open spec fn spec_id(&self) -> u64 {
        self.asset
    }

    fn get_interface_name() -> (r: &'static str) {
        "fragmented.destination.video.sciter.com"
    }

    fn wrap(id: u64) -> (r: Self) {
        fragmented_video_destination { asset: id }
    }

    fn asset_id(&self) -> (r: u64) {
        self.asset
    }
}

impl fragmented_video_destination {
    /// Whether the rendering site is attached to a live element and can
    /// take frames.
    pub fn is_alive(&self, store: &AssetStore) -> (r: bool)
        requires
            store.wf(),
            store.valid(self.asset),
        ensures
            r == store.alive@[store.idx_of(self.asset)],
    {
        let idx = store.index(self.asset);
        store.alive[idx]
    }

    /// Start streaming frames of the given size and color space.
    pub fn start_streaming(
        &self,
        store: &mut AssetStore,
        frame_size: (i32, i32),
        color_space: COLOR_SPACE,
        src: Option<&video_source>,
    ) -> (r: Result<(), ()>)
        requires
            old(store).wf(),
            old(store).valid(self.asset),
        ensures
            final(store).wf(),
            r == (if old(store).alive@[old(store).idx_of(self.asset)] {
                Ok::<(), ()>(())
            } else {
                Err::<(), ()>(())
            }),
            r is Ok ==> final(store).streaming@ == old(store).streaming@.update(
                old(store).idx_of(self.asset),
                true,
            ),
            r is Err ==> *final(store) == *old(store),
            final(store).refs@ == old(store).refs@,
            final(store).frames@ == old(store).frames@,
            final(store).alive@ == old(store).alive@,
    {
        let dest = video_destination { asset: self.asset };
        dest.start_streaming(store, frame_size, color_space, src)
    }

    /// Stop streaming.
    pub fn stop_streaming(&self, store: &mut AssetStore) -> (r: Result<(), ()>)
        requires
            old(store).wf(),
            old(store).valid(self.asset),
        ensures
            final(store).wf(),
            r is Ok,
            final(store).streaming@ == old(store).streaming@.update(
                old(store).idx_of(self.asset),
                false,
            ),
            final(store).refs@ == old(store).refs@,
            final(store).frames@ == old(store).frames@,
            final(store).alive@ == old(store).alive@,
    {
        let dest = video_destination { asset: self.asset };
        dest.stop_streaming(store)
    }

    /// Render the next whole frame.
    pub fn render_frame(&self, store: &mut AssetStore, data: &[u8]) -> (r: Result<(), ()>)
        requires
            old(store).wf(),
            old(store).valid(self.asset),
            old(store).frames@[old(store).idx_of(self.asset)] < u64::MAX,
        ensures
            final(store).wf(),
            r == (if old(store).alive@[old(store).idx_of(self.asset)] && old(store).streaming@[old(
                store,
            ).idx_of(self.asset)] {
                Ok::<(), ()>(())
            } else {
                Err::<(), ()>(())
            }),
            r is Ok ==> final(store).frames@ == old(store).frames@.update(
                old(store).idx_of(self.asset),
                (old(store).frames@[old(store).idx_of(self.asset)] + 1) as u64,
            ),
            r is Err ==> *final(store) == *old(store),
            final(store).refs@ == old(store).refs@,
            final(store).alive@ == old(store).alive@,
            final(store).streaming@ == old(store).streaming@,
    {
        let dest = video_destination { asset: self.asset };
        dest.render_frame(store, data)
    }

    /// Render a part of the current frame; counted like a whole frame.
    pub fn render_frame_part(
        &self,
        store: &mut AssetStore,
        data: &[u8],
        update_point: (i32, i32),
        update_size: (i32, i32),
    ) -> (r: Result<(), ()>)
        requires
            old(store).wf(),
            old(store).valid(self.asset),
            old(store).frames@[old(store).idx_of(self.asset)] < u64::MAX,
        ensures
            final(store).wf(),
            r == (if old(store).alive@[old(store).idx_of(self.asset)] && old(store).streaming@[old(
                store,
            ).idx_of(self.asset)] {
                Ok::<(), ()>(())
            } else {
                Err::<(), ()>(())
            }),
            r is Ok ==> final(store).frames@ == old(store).frames@.update(
                old(store).idx_of(self.asset),
                (old(store).frames@[old(store).idx_of(self.asset)] + 1) as u64,
            ),
            r is Err ==> *final(store) == *old(store),
            final(store).refs@ == old(store).refs@,
            final(store).alive@ == old(store).alive@,
            final(store).streaming@ == old(store).streaming@,
    {
        let dest = video_destination { asset: self.asset };
        dest.render_frame(store, data)
    }
}

/// A managed asset reference: an owned claim of exactly one reference on
/// one asset, typed by the interface it was taken through.
pub struct AssetPtr<T> {
    /// The typed view over the asset.
    pub ptr: T,
}

impl<T: NamedInterface> AssetPtr<T> {
    /// Wrap an existing reference without incrementing the count: for a
    /// pointer whose reference was already taken on the caller's behalf.
    pub fn attach(lp: T) -> (r: AssetPtr<T>)
        requires
            lp.spec_id() != 0,
        ensures
            r.ptr == lp,
    {
        AssetPtr { ptr: lp }
    }

    /// Wrap a borrowed pointer and increment its reference count.
    pub fn adopt(store: &mut AssetStore, lp: T) -> (r: AssetPtr<T>)
        requires
            old(store).wf(),
            lp.spec_id() != 0,
            old(store).valid(lp.spec_id()),
            old(store).refs@[old(store).idx_of(lp.spec_id())] < u64::MAX,
        ensures
            final(store).wf(),
            r.ptr == lp,
            final(store).refs@ == old(store).refs@.update(
                old(store).idx_of(lp.spec_id()),
                (old(store).refs@[old(store).idx_of(lp.spec_id())] + 1) as u64,
            ),
            final(store).alive@ == old(store).alive@,
            final(store).streaming@ == old(store).streaming@,
            final(store).frames@ == old(store).frames@,
            final(store).ifaces@ == old(store).ifaces@,
    {
        let id = lp.asset_id();
        let me = AssetPtr { ptr: lp };
        let handle = iasset { id };
        handle.add_ref(store);
        me
    }

    /// The base interface of the managed asset.
    pub fn get(&self) -> (r: iasset)
        ensures
            r.id == self.ptr.spec_id(),
    {
        iasset { id: self.ptr.asset_id() }
    }

    /// Take one more reference, as cloning the managed pointer does.
    pub fn clone_ref(&self, store: &mut AssetStore) -> (r: AssetPtr<T>)
        requires
            old(store).wf(),
            old(store).valid(self.ptr.spec_id()),
            old(store).refs@[old(store).idx_of(self.ptr.spec_id())] < u64::MAX,
        ensures
            final(store).wf(),
            r.ptr.spec_id() == self.ptr.spec_id(),
            final(store).refs@ == old(store).refs@.update(
                old(store).idx_of(self.ptr.spec_id()),
                (old(store).refs@[old(store).idx_of(self.ptr.spec_id())] + 1) as u64,
            ),
            final(store).alive@ == old(store).alive@,
            final(store).streaming@ == old(store).streaming@,
            final(store).frames@ == old(store).frames@,
            final(store).ifaces@ == old(store).ifaces@,
    {
        let id = self.ptr.asset_id();
        let handle = iasset { id };
        handle.add_ref(store);
        AssetPtr { ptr: T::wrap(id) }
    }

    /// Give the managed reference back, as dropping the pointer does.
    pub fn release(self, store: &mut AssetStore)
        requires
            old(store).wf(),
            old(store).valid(self.ptr.spec_id()),
            old(store).refs@[old(store).idx_of(self.ptr.spec_id())] > 0,
        ensures
            final(store).wf(),
            final(store).refs@ == old(store).refs@.update(
                old(store).idx_of(self.ptr.spec_id()),
                (old(store).refs@[old(store).idx_of(self.ptr.spec_id())] - 1) as u64,
            ),
            final(store).alive@ == old(store).alive@,
            final(store).streaming@ == old(store).streaming@,
            final(store).frames@ == old(store).frames@,
            final(store).ifaces@ == old(store).ifaces@,
    {
        let id = self.ptr.asset_id();
        let handle = iasset { id };
        handle.release(store);
    }

    /// Ask another managed asset for this interface; a supported answer
    /// is adopted (its count incremented), an unsupported one is a plain
    /// failure — no extended capability, not an error state.
    pub fn try_from<U: NamedInterface>(store: &mut AssetStore, other: &AssetPtr<U>) -> (r: Result<
        AssetPtr<T>,
        (),
    >)
        requires
            old(store).wf(),
            old(store).valid(other.ptr.spec_id()),
        ensures
            final(store).wf(),
            match spec_iface_lookup(
                old(store).ifaces@[old(store).idx_of(other.ptr.spec_id())]@,
                T::spec_name(),
            ) {
                Some(id) => if id != 0 && old(store).valid(id) && old(store).refs@[old(
                    store,
                ).idx_of(id)] < u64::MAX {
                    &&& r matches Ok(a) && a.ptr.spec_id() == id
                    &&& final(store).refs@ == old(store).refs@.update(
                        old(store).idx_of(id),
                        (old(store).refs@[old(store).idx_of(id)] + 1) as u64,
                    )
                } else {
                    r is Err && *final(store) == *old(store)
                },
                None => r is Err && *final(store) == *old(store),
            },
    {
        let from = iasset { id: other.ptr.asset_id() };
        match T::query_interface(store, &from) {
            Some(found) => {
                if found.id >= 1 && found.id <= store.refs.len() as u64 {
                    let idx = store.index(found.id);
                    if store.refs[idx] < u64::MAX {
                        Ok(AssetPtr::adopt(store, T::wrap(found.id)))
                    } else {
                        Err(())
                    }
                } else {
                    Err(())
                }
            },
            None => Err(()),
        }
    }
}

/// One ownership operation on a managed asset reference.
#[derive(Clone, Copy, PartialEq, Eq, Structural, Debug)]
pub enum HandleOp {
    /// Wrap without incrementing.
    Attach,
    /// Wrap and increment.
    Adopt,
    /// Clone the wrapper: increment.
    CloneRef,
    /// Drop the wrapper: decrement.
    Drop,
}

/// The net change a sequence of ownership operations makes to a foreign
/// reference count: one up for each adopt or clone, nothing for an
/// attach, one down for each drop.
pub open spec fn spec_net_delta(ops: Seq<HandleOp>) -> int
    decreases ops.len(),
{
    if ops.len() == 0 {
        0
    } else {
        (match ops[0] {
            HandleOp::Attach => 0int,
            HandleOp::Adopt => 1int,
            HandleOp::CloneRef => 1int,
            HandleOp::Drop => -1int,
        }) + spec_net_delta(ops.drop_first())
    }
}

/// The count a foreign reference count reaches after a sequence of
/// ownership operations, applied in order.
pub open spec fn spec_apply_ops(start: int, ops: Seq<HandleOp>) -> int
    decreases ops.len(),
{
    if ops.len() == 0 {
        start
    } else {
        spec_apply_ops(
            start + (match ops[0] {
                HandleOp::Attach => 0int,
                HandleOp::Adopt => 1int,
                HandleOp::CloneRef => 1int,
                HandleOp::Drop => -1int,
            }),
            ops.drop_first(),
        )
    }
}

/// Reference count balance: for every sequence of attach, adopt, clone
/// and drop operations on one handle, the final foreign count is the
/// starting count plus one per adopt or clone minus one per drop —
/// attaches change nothing.
pub proof fn lemma_refcount_balance(start: int, ops: Seq<HandleOp>)
    ensures
        spec_apply_ops(start, ops) == start + spec_net_delta(ops),
    decreases ops.len(),
{
    if ops.len() == 0 {
    } else {
        let head: int = match ops[0] {
            HandleOp::Attach => 0int,
            HandleOp::Adopt => 1int,
            HandleOp::CloneRef => 1int,
            HandleOp::Drop => -1int,
        };
        lemma_refcount_balance(start + head, ops.drop_first());
    }
}

/// The frame-streaming worker: it pushes frames while the destination
/// reports itself alive, and is finished for good at the first dead poll.
pub struct StreamWorker {
    /// Whether the worker is still running.
    pub running: bool,
    /// Frames the worker pushed so far.
    pub pushed: u64,
}

impl StreamWorker {
    /// A fresh, running worker.
    pub fn start() -> (r: StreamWorker)
        ensures
            r.running,
            r.pushed == 0,
    {
        StreamWorker { running: true, pushed: 0 }
    }

    /// One scheduling step: poll the destination; push a frame while it
    /// is alive, stop for good the moment it is not.  Answers whether
    /// the worker keeps running.
    pub fn step(&mut self, store: &mut AssetStore, dest: &video_destination, frame: &[u8]) -> (r:
        bool)
        requires
            old(self).running,
            old(self).pushed < u64::MAX,
            old(store).wf(),
            old(store).valid(dest.asset),
            old(store).frames@[old(store).idx_of(dest.asset)] < u64::MAX,
        ensures
            final(store).wf(),
            r == final(self).running,
            final(self).running == old(store).alive@[old(store).idx_of(dest.asset)],
            !old(store).alive@[old(store).idx_of(dest.asset)] ==> *final(store) == *old(store)
                && final(self).pushed == old(self).pushed,
            old(store).alive@[old(store).idx_of(dest.asset)] && old(store).streaming@[old(
                store,
            ).idx_of(dest.asset)] ==> final(self).pushed == old(self).pushed + 1
                && final(store).frames@[old(store).idx_of(dest.asset)] == old(store).frames@[old(
                store,
            ).idx_of(dest.asset)] + 1,
            old(store).alive@[old(store).idx_of(dest.asset)] && !old(store).streaming@[old(
                store,
            ).idx_of(dest.asset)] ==> final(self).pushed == old(self).pushed
                && final(store).frames@ == old(store).frames@,
            final(store).alive@ == old(store).alive@,
            final(store).refs@ == old(store).refs@,
    {
        if dest.is_alive(store) {
            let sent = dest.render_frame(store, frame);
            if sent.is_ok() {
                self.pushed = self.pushed + 1;
            }
            true
        } else {
            self.running = false;
            false
        }
    }
}

/// Worker shutdown: over any run of scheduling steps, the number of
/// polls the worker answers is the length of the longest prefix of
/// alive polls plus the one dead poll that stops it; after that poll no
/// step runs, so no frame is ever rendered after the destination went
/// dead.
pub open spec fn spec_polls_until_stop(alives: Seq<bool>) -> int
    decreases alives.len(),
{
    if alives.len() == 0 {
        0
    } else if alives[0] {
        1 + spec_polls_until_stop(alives.drop_first())
    } else {
        1
    }
}

/// The worker stops within a bounded number of polls: never more than
/// one past the first dead poll, and all earlier polls saw a live
/// destination.
pub proof fn lemma_worker_shutdown(alives: Seq<bool>)
    requires
        exists|i: int| 0 <= i < alives.len() && !alives[i],
    ensures
        spec_polls_until_stop(alives) <= alives.len(),
        ({
            let k = spec_polls_until_stop(alives);
            &&& 0 < k <= alives.len()
            &&& !alives[k - 1]
            &&& forall|j: int| 0 <= j < k - 1 ==> alives[j]
        }),
    decreases alives.len(),
{
    if alives.len() == 0 {
    } else if alives[0] {
        let i = choose|i: int| 0 <= i < alives.len() && !alives[i];
        assert(!alives.drop_first()[i - 1]);
        lemma_worker_shutdown(alives.drop_first());
        let tail = alives.drop_first();
        let k2 = spec_polls_until_stop(tail);
        assert(spec_polls_until_stop(alives) == 1 + k2);
        assert(!alives[1 + k2 - 1]) by {
            assert(!tail[k2 - 1]);
            assert(tail[k2 - 1] == alives[k2]);
        }
        assert forall|j: int| 0 <= j < 1 + k2 - 1 implies alives[j] by {
            if j > 0 {
                assert(tail[j - 1] == alives[j]);
            }
        }
    }
}

} // verus!
