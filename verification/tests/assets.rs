//! Handle ownership over the asset store, which doubles as the fake
//! foreign vtable recording every count change.

use sciter::video::{
    iasset, video_destination, video_source, AssetPtr, AssetStore, NamedInterface, StreamWorker,
    COLOR_SPACE,
};

fn count(store: &AssetStore, id: u64) -> u64 {
    store.refs[(id - 1) as usize]
}

#[test]
fn refcount_balance() {
    // +1 per adopt or clone, +0 per attach, -1 per drop
    let mut store = AssetStore::new();
    let id = store.create_asset(true);
    assert_eq!(count(&store, id), 1);

    let attached = AssetPtr::attach(video_destination { asset: id });
    assert_eq!(count(&store, id), 1); // attach does not increment

    let adopted = AssetPtr::adopt(&mut store, video_destination { asset: id });
    assert_eq!(count(&store, id), 2);

    let cloned = adopted.clone_ref(&mut store);
    assert_eq!(count(&store, id), 3);

    cloned.release(&mut store);
    assert_eq!(count(&store, id), 2);
    adopted.release(&mut store);
    assert_eq!(count(&store, id), 1);
    attached.release(&mut store);
    assert_eq!(count(&store, id), 0);
}

#[test]
fn add_ref_release_report_counts() {
    let mut store = AssetStore::new();
    let id = store.create_asset(false);
    let raw = iasset { id };
    assert_eq!(raw.add_ref(&mut store), 2);
    assert_eq!(raw.add_ref(&mut store), 3);
    assert_eq!(raw.release(&mut store), 2);
    assert_eq!(raw.release(&mut store), 1);
}

#[test]
fn query_interface_derivation() {
    // the site exposes the fragmented destination; deriving it adopts the
    // answered asset, an unsupported name is a plain miss
    let mut store = AssetStore::new();
    let site = store.create_asset(true);
    let frag = store.create_asset(true);
    store.link_interface(site, "destination.video.sciter.com", frag);

    let owner: AssetPtr<video_destination> =
        AssetPtr::adopt(&mut store, video_destination { asset: site });
    assert_eq!(count(&store, site), 2);

    let derived: Result<AssetPtr<video_destination>, ()> = AssetPtr::try_from(&mut store, &owner);
    let derived = derived.expect("interface expected");
    assert_eq!(derived.ptr.asset, frag);
    assert_eq!(count(&store, frag), 2); // adopted on derivation

    let missing: Result<AssetPtr<video_source>, ()> = AssetPtr::try_from(&mut store, &owner);
    assert!(missing.is_err());

    derived.release(&mut store);
    owner.release(&mut store);
    assert_eq!(count(&store, frag), 1);
    assert_eq!(count(&store, site), 1);
}

#[test]
fn interface_names() {
    assert_eq!(video_source::get_interface_name(), "source.video.sciter.com");
    assert_eq!(
        video_destination::get_interface_name(),
        "destination.video.sciter.com"
    );
}

#[test]
fn video_worker_shutdown() {
    // frames flow while the site is alive; the first dead poll stops the
    // worker for good and nothing is rendered after it
    let mut store = AssetStore::new();
    let id = store.create_asset(true);
    let dest = video_destination { asset: id };
    assert!(dest.start_streaming(&mut store, (640, 480), COLOR_SPACE::Iyuv, None).is_ok());

    let mut worker = StreamWorker::start();
    let frame = [0u8; 16];
    assert!(worker.step(&mut store, &dest, &frame));
    assert!(worker.step(&mut store, &dest, &frame));
    assert_eq!(worker.pushed, 2);
    assert_eq!(store.frames[(id - 1) as usize], 2);

    // the element goes away: the destination is no longer alive
    store.set_alive(id, false);
    assert!(!worker.step(&mut store, &dest, &frame));
    assert!(!worker.running);
    // no frame was rendered by or after the dead poll
    assert_eq!(store.frames[(id - 1) as usize], 2);
    assert_eq!(worker.pushed, 2);

    // direct renders against a dead site are refused too
    assert!(dest.render_frame(&mut store, &frame).is_err());
    assert_eq!(store.frames[(id - 1) as usize], 2);
}

#[test]
fn source_playback_state() {
    let mut store = AssetStore::new();
    let id = store.create_asset(true);
    let src = video_source { asset: id };
    assert!(src.play(&mut store).is_ok());
    assert!(store.playing[(id - 1) as usize]);
    assert!(src.pause(&mut store).is_ok());
    assert!(!store.playing[(id - 1) as usize]);
    assert_eq!(src.is_ended(&store), Ok(false));
}

#[test]
fn streaming_requires_live_site() {
    let mut store = AssetStore::new();
    let id = store.create_asset(false);
    let dest = video_destination { asset: id };
    assert!(dest.start_streaming(&mut store, (64, 64), COLOR_SPACE::Rgb32, None).is_err());
    assert!(!dest.is_alive(&store));
}
