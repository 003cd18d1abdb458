use sciter::graphics::{color, GfxStore, Image, SaveImageEncoding, SCITER_IMAGE_ENCODING};

fn get(store: &mut GfxStore) -> Image {
    Image::new(store, (100, 100), true).expect("Can't create a `100x100` image")
}

#[test]
fn image_new() {
    let mut store = GfxStore::new();
    let ok = Image::new(&mut store, (100, 100), false);
    assert!(ok.is_ok());

    let ok = Image::new(&mut store, (100, 100), true);
    assert!(ok.is_ok());
}

#[test]
fn image_dimensions() {
    let mut store = GfxStore::new();
    let img = get(&mut store);
    let size = img.dimensions(&store).unwrap();
    assert_eq!((100, 100), size);
}

#[test]
fn image_clear() {
    let mut store = GfxStore::new();
    let img = get(&mut store);
    assert_eq!(Ok(()), img.clear(&mut store));
    let img2 = get(&mut store);
    assert_eq!(Ok(()), img2.clear_with(&mut store, color(255, 255, 255, None)));
}

#[test]
fn make_color() {
    // packed as ABGR
    assert_eq!(0xFF000000, color(0, 0, 0, None));
    assert_eq!(0x00000000, color(0, 0, 0, Some(0)));

    assert_eq!(0xFF112233, color(0x33, 0x22, 0x11, None));
}

#[test]
fn image_with_data_checks_size() {
    let mut store = GfxStore::new();
    let pixmap = vec![0u8; 2 * 2 * 4];
    assert!(Image::with_data(&mut store, (2, 2), true, &pixmap).is_ok());

    let short = vec![0u8; 3];
    assert!(Image::with_data(&mut store, (2, 2), true, &short).is_err());
}

#[test]
fn encoding_params_map() {
    assert_eq!(
        sciter::graphics::encoding_params(SaveImageEncoding::Raw),
        (SCITER_IMAGE_ENCODING::RAW, 0)
    );
    assert_eq!(
        sciter::graphics::encoding_params(SaveImageEncoding::Jpeg(80)),
        (SCITER_IMAGE_ENCODING::JPG, 80)
    );
    assert_eq!(
        sciter::graphics::encoding_params(SaveImageEncoding::Webp(0)),
        (SCITER_IMAGE_ENCODING::WEBP, 0)
    );
}

#[test]
fn surface_state() {
    let mut store = GfxStore::new();
    let img = get(&mut store);
    let gfx = store.create_surface(&img);

    // a restore without a save fails and changes nothing
    assert!(gfx.pop_state(&mut store).is_err());
    assert!(gfx.push_state(&mut store).is_ok());
    assert!(gfx.pop_state(&mut store).is_ok());
    assert!(gfx.pop_state(&mut store).is_err());

    assert!(gfx.fill_color(&mut store, color(1, 2, 3, None)).is_ok());
    assert!(gfx.no_fill(&mut store).is_ok());
    assert!(gfx.line_color(&mut store, color(9, 9, 9, None)).is_ok());
    assert!(gfx.no_line(&mut store).is_ok());
    let idx = (gfx.h - 1) as usize;
    assert_eq!(store.gfx_fill[idx], None);
    assert_eq!(store.gfx_line[idx], None);
}

#[test]
fn resource_refcounts() {
    let mut store = GfxStore::new();
    let img = get(&mut store);
    let idx = (img.h - 1) as usize;
    assert_eq!(store.img_refs[idx], 1);
    let copy = img.duplicate(&mut store);
    assert_eq!(store.img_refs[idx], 2);
    copy.release(&mut store);
    assert_eq!(store.img_refs[idx], 1);
    img.release(&mut store);
    assert_eq!(store.img_refs[idx], 0);
}
