//! The engine's 2D graphics interface: images, paths and drawing
//! surfaces, all reference-counted engine resources.
//!
//! Only the ownership pattern and the plain-value state of these objects
//! is modelled; the pixels themselves belong to the engine.  The store
//! keeps, per resource, its reference count and the state the binding can
//! observe, and every wrapper call states exactly how that state moves.

use vstd::prelude::*;

verus! {

/// Result codes of graphics operations, as the engine reports them.
#[allow(non_camel_case_types)]
#[derive(Clone, Copy, PartialEq, Eq, Structural, Debug)]
pub enum GRAPHIN_RESULT {
    /// Fatal failure, e.g. not enough memory.
    PANIC,
    /// Success.
    OK,
    /// A parameter is not valid.
    BAD_PARAM,
    /// The operation failed, e.g. a restore without a save.
    FAILURE,
    /// The platform does not support the requested feature.
    NOTSUPPORTED,
}

/// How a path is drawn.
#[allow(non_camel_case_types)]
#[derive(Clone, Copy, PartialEq, Eq, Structural, Debug)]
pub enum DRAW_PATH_MODE {
    /// Fill only.
    FILL_ONLY,
    /// Stroke only.
    STROKE_ONLY,
    /// Fill, then stroke.
    FILL_AND_STROKE,
}

/// How line joins are drawn.
#[allow(non_camel_case_types)]
#[derive(Clone, Copy, PartialEq, Eq, Structural, Debug)]
pub enum SCITER_LINE_JOIN_TYPE {
    /// Miter join.
    MITER,
    /// Round join.
    ROUND,
    /// Bevel join.
    BEVEL,
    /// Miter or bevel join.
    MITER_OR_BEVEL,
}

/// How line ends are drawn.
#[allow(non_camel_case_types)]
#[derive(Clone, Copy, PartialEq, Eq, Structural, Debug)]
pub enum SCITER_LINE_CAP_TYPE {
    /// Flat cap.
    BUTT,
    /// Square cap.
    SQUARE,
    /// Round cap.
    ROUND,
}

/// Text alignment.
#[allow(non_camel_case_types)]
#[derive(Clone, Copy, PartialEq, Eq, Structural, Debug)]
pub enum SCITER_TEXT_ALIGNMENT {
    /// Default alignment.
    DEFAULT,
    /// Align to the start.
    START,
    /// Align to the end.
    END,
    /// Centered.
    CENTER,
}

/// Text direction.
#[allow(non_camel_case_types)]
#[derive(Clone, Copy, PartialEq, Eq, Structural, Debug)]
pub enum SCITER_TEXT_DIRECTION {
    /// Default direction.
    DEFAULT,
    /// Left to right.
    LTR,
    /// Right to left.
    RTL,
    /// Top to bottom.
    TTB,
}

/// Image encodings the engine can write.
#[allow(non_camel_case_types)]
#[derive(Clone, Copy, PartialEq, Eq, Structural, Debug)]
pub enum SCITER_IMAGE_ENCODING {
    /// Raw `[a,b,g,r, ...]` bytes.
    RAW,
    /// Portable Network Graphics.
    PNG,
    /// JPEG.
    JPG,
    /// WebP.
    WEBP,
}

/// Image encodings offered when saving, with their quality levels.
#[derive(Clone, Copy, PartialEq, Eq, Structural, Debug)]
pub enum SaveImageEncoding {
    /// Raw bitmap in `[a,b,g,r, ...]` form.
    Raw,
    /// Portable Network Graphics.
    Png,
    /// JPEG with a quality level in `10..100`.
    Jpeg(u8),
    /// WebP with a quality level in `0..100`; `0` means lossless.
    Webp(u8),
}

/// The engine encoding and quality a save encoding maps to.
pub open spec fn spec_encoding_params(encoding: SaveImageEncoding) -> (SCITER_IMAGE_ENCODING, u8) {
    match encoding {
        SaveImageEncoding::Raw => (SCITER_IMAGE_ENCODING::RAW, 0u8),
        SaveImageEncoding::Png => (SCITER_IMAGE_ENCODING::PNG, 0u8),
        SaveImageEncoding::Jpeg(q) => (SCITER_IMAGE_ENCODING::JPG, q),
        SaveImageEncoding::Webp(q) => (SCITER_IMAGE_ENCODING::WEBP, q),
    }
}

/// Split a save encoding into the engine encoding and the quality level
/// handed to the engine's save call.
pub fn encoding_params(encoding: SaveImageEncoding) -> (r: (SCITER_IMAGE_ENCODING, u8))
    ensures
        r == spec_encoding_params(encoding),
{
    match encoding {
        SaveImageEncoding::Raw => (SCITER_IMAGE_ENCODING::RAW, 0),
        SaveImageEncoding::Png => (SCITER_IMAGE_ENCODING::PNG, 0),
        SaveImageEncoding::Jpeg(q) => (SCITER_IMAGE_ENCODING::JPG, q),
        SaveImageEncoding::Webp(q) => (SCITER_IMAGE_ENCODING::WEBP, q),
    }
}

/// A color in the engine's packed form: opacity in the high byte, then
/// blue, green, red.
pub type Color = u32;

/// Pack a color from its components; a missing opacity means fully
/// opaque.
pub fn color(red: u8, green: u8, blue: u8, opacity: Option<u8>) -> (r: Color)
    ensures
        r == ((match opacity {
            Some(a) => a as u32,
            None => 255u32,
        } << 24u32) | ((blue as u32) << 16u32) | ((green as u32) << 8u32) | (red as u32)),
{
    let a: u32 = match opacity {
        Some(v) => v as u32,
        None => 255,
    };
    (a << 24u32) | ((blue as u32) << 16u32) | ((green as u32) << 8u32) | (red as u32)
}

/// The engine's graphics resources as the host sees them: per-image, per-
/// path and per-surface reference counts and observable state.  A handle
/// is one plus the resource's index in its kind's vectors; `0` is null.
pub struct GfxStore {
    /// Reference count of each image.
    pub img_refs: Vec<u64>,
    /// Width and height of each image.
    pub img_dims: Vec<(u32, u32)>,
    /// Whether each image carries an alpha channel.
    pub img_alpha: Vec<bool>,
    /// The color each image was last cleared with.
    pub img_fill: Vec<Color>,
    /// Reference count of each path.
    pub path_refs: Vec<u64>,
    /// Number of segments recorded on each path.
    pub path_segments: Vec<u64>,
    /// Whether each path's current figure was closed.
    pub path_closed: Vec<bool>,
    /// Reference count of each drawing surface.
    pub gfx_refs: Vec<u64>,
    /// Depth of each surface's saved-state stack.
    pub gfx_depth: Vec<u64>,
    /// Current fill color of each surface; none means no fill.
    pub gfx_fill: Vec<Option<Color>>,
    /// Current line color of each surface; none means no line.
    pub gfx_line: Vec<Option<Color>>,
    /// Current line cap of each surface.
    pub gfx_cap: Vec<SCITER_LINE_CAP_TYPE>,
    /// Current line join of each surface.
    pub gfx_join: Vec<SCITER_LINE_JOIN_TYPE>,
    /// Whether each surface fills with the even-odd rule.
    pub gfx_even_odd: Vec<bool>,
    /// Number of draw calls made on each surface.
    pub gfx_draws: Vec<u64>,
}

impl GfxStore {
    /// The parallel vectors of each resource kind agree in length.
    pub open spec fn wf(&self) -> bool {
        &&& self.img_dims@.len() == self.img_refs@.len()
        &&& self.img_alpha@.len() == self.img_refs@.len()
        &&& self.img_fill@.len() == self.img_refs@.len()
        &&& self.path_segments@.len() == self.path_refs@.len()
        &&& self.path_closed@.len() == self.path_refs@.len()
        &&& self.gfx_depth@.len() == self.gfx_refs@.len()
        &&& self.gfx_fill@.len() == self.gfx_refs@.len()
        &&& self.gfx_line@.len() == self.gfx_refs@.len()
        &&& self.gfx_cap@.len() == self.gfx_refs@.len()
        &&& self.gfx_join@.len() == self.gfx_refs@.len()
        &&& self.gfx_even_odd@.len() == self.gfx_refs@.len()
        &&& self.gfx_draws@.len() == self.gfx_refs@.len()
    }

    /// Whether `h` is a handle of an image of this store.
    pub open spec fn valid_img(&self, h: u64) -> bool {
        1 <= h <= self.img_refs@.len()
    }

    /// Whether `h` is a handle of a path of this store.
    pub open spec fn valid_path(&self, h: u64) -> bool {
        1 <= h <= self.path_refs@.len()
    }

    /// Whether `h` is a handle of a surface of this store.
    pub open spec fn valid_gfx(&self, h: u64) -> bool {
        1 <= h <= self.gfx_refs@.len()
    }

    /// The resource index of a handle.
    pub open spec fn idx_of(&self, h: u64) -> int {
        h - 1
    }

    /// An empty graphics world.
    pub fn new() -> (r: GfxStore)
        ensures
            r.wf(),
            r.img_refs@.len() == 0,
            r.path_refs@.len() == 0,
            r.gfx_refs@.len() == 0,
    {
        GfxStore {
            img_refs: Vec::new(),
            img_dims: Vec::new(),
            img_alpha: Vec::new(),
            img_fill: Vec::new(),
            path_refs: Vec::new(),
            path_segments: Vec::new(),
            path_closed: Vec::new(),
            gfx_refs: Vec::new(),
            gfx_depth: Vec::new(),
            gfx_fill: Vec::new(),
            gfx_line: Vec::new(),
            gfx_cap: Vec::new(),
            gfx_join: Vec::new(),
            gfx_even_odd: Vec::new(),
            gfx_draws: Vec::new(),
        }
    }

    /// Make a drawing surface over an image, with one reference owned by
    /// the answered wrapper.
    pub fn create_surface(&mut self, image: &Image) -> (r: Graphics)
        requires
            old(self).wf(),
            old(self).valid_img(image.h),
            old(self).gfx_refs@.len() < u64::MAX - 1,
        ensures
            final(self).wf(),
            r.h == old(self).gfx_refs@.len() + 1,
            final(self).valid_gfx(r.h),
            final(self).gfx_refs@ == old(self).gfx_refs@.push(1u64),
            final(self).gfx_depth@ == old(self).gfx_depth@.push(0u64),
            final(self).gfx_fill@ == old(self).gfx_fill@.push(None::<Color>),
            final(self).gfx_line@ == old(self).gfx_line@.push(None::<Color>),
            final(self).gfx_draws@ == old(self).gfx_draws@.push(0u64),
            final(self).img_refs@ == old(self).img_refs@,
            final(self).img_dims@ == old(self).img_dims@,
            final(self).path_refs@ == old(self).path_refs@,
    {
        let h = self.gfx_refs.len() as u64 + 1;
        self.gfx_refs.push(1);
        self.gfx_depth.push(0);
        self.gfx_fill.push(None);
        self.gfx_line.push(None);
        self.gfx_cap.push(SCITER_LINE_CAP_TYPE::BUTT);
        self.gfx_join.push(SCITER_LINE_JOIN_TYPE::MITER);
        self.gfx_even_odd.push(false);
        self.gfx_draws.push(0);
        Graphics { h }
    }
}

/// Graphics image object: an owned reference to an engine image.
pub struct Image {
    /// The image handle.
    pub h: u64,
}

impl Image {
    /// Create a new blank image of the given size.
    pub fn new(store: &mut GfxStore, dims: (u32, u32), with_alpha: bool) -> (r: Result<
        Image,
        GRAPHIN_RESULT,
    >)
        requires
            old(store).wf(),
            old(store).img_refs@.len() < u64::MAX - 1,
        ensures
            final(store).wf(),
            r matches Ok(img) && {
                &&& img.h == old(store).img_refs@.len() + 1
                &&& final(store).valid_img(img.h)
                &&& final(store).img_refs@ == old(store).img_refs@.push(1u64)
                &&& final(store).img_dims@ == old(store).img_dims@.push(dims)
                &&& final(store).img_alpha@ == old(store).img_alpha@.push(with_alpha)
                &&& final(store).img_fill@ == old(store).img_fill@.push(0u32)
            },
            final(store).path_refs@ == old(store).path_refs@,
            final(store).gfx_refs@ == old(store).gfx_refs@,
    {
        let h = store.img_refs.len() as u64 + 1;
        store.img_refs.push(1);
        store.img_dims.push(dims);
        store.img_alpha.push(with_alpha);
        store.img_fill.push(0);
        Ok(Image { h })
    }

    /// Create an image over `BGRA` pixel data; the data must hold exactly
    /// `width * height * 4` bytes, else the parameter is refused.
    pub fn with_data(store: &mut GfxStore, dims: (u32, u32), with_alpha: bool, pixmap: &[u8]) -> (r:
        Result<Image, GRAPHIN_RESULT>)
        requires
            old(store).wf(),
            old(store).img_refs@.len() < u64::MAX - 1,
        ensures
            final(store).wf(),
            pixmap@.len() == dims.0 as int * dims.1 as int * 4 ==> (r matches Ok(img) && {
                &&& img.h == old(store).img_refs@.len() + 1
                &&& final(store).img_refs@ == old(store).img_refs@.push(1u64)
                &&& final(store).img_dims@ == old(store).img_dims@.push(dims)
            }),
            pixmap@.len() != dims.0 as int * dims.1 as int * 4 ==> r == Err::<
                Image,
                GRAPHIN_RESULT,
            >(GRAPHIN_RESULT::BAD_PARAM) && *final(store) == *old(store),
    {
        let w = dims.0 as u128;
        let hgt = dims.1 as u128;
        proof {
            assert(w * hgt * 4 <= 0xFFFF_FFFFu128 * 0xFFFF_FFFFu128 * 4) by (nonlinear_arith)
                requires
                    w <= 0xFFFF_FFFFu128,
                    hgt <= 0xFFFF_FFFFu128,
            ;
        }
        let expect: u128 = w * hgt * 4;
        if pixmap.len() as u128 == expect {
            Image::new(store, dims, with_alpha)
        } else {
            Err(GRAPHIN_RESULT::BAD_PARAM)
        }
    }

    /// Width and height of the image, in pixels.
    pub fn dimensions(&self, store: &GfxStore) -> (r: Result<(u32, u32), GRAPHIN_RESULT>)
        requires
            store.wf(),
            store.valid_img(self.h),
        ensures
            r == Ok::<(u32, u32), GRAPHIN_RESULT>(store.img_dims@[store.idx_of(self.h)]),
    {
        let bound = store.img_refs.len();
        let idx = (self.h - 1) as usize;
        Ok(store.img_dims[idx])
    }

    /// Clear the image by filling it with black.
    pub fn clear(&self, store: &mut GfxStore) -> (r: Result<(), GRAPHIN_RESULT>)
        requires
            old(store).wf(),
            old(store).valid_img(self.h),
        ensures
            final(store).wf(),
            r is Ok,
            final(store).img_fill@ == old(store).img_fill@.update(old(store).idx_of(self.h), 0u32),
            final(store).img_refs@ == old(store).img_refs@,
            final(store).img_dims@ == old(store).img_dims@,
    {
        self.clear_with(store, 0)
    }

    /// Clear the image by filling it with the given color.
    pub fn clear_with(&self, store: &mut GfxStore, fill: Color) -> (r: Result<(), GRAPHIN_RESULT>)
        requires
            old(store).wf(),
            old(store).valid_img(self.h),
        ensures
            final(store).wf(),
            r is Ok,
            final(store).img_fill@ == old(store).img_fill@.update(old(store).idx_of(self.h), fill),
            final(store).img_refs@ == old(store).img_refs@,
            final(store).img_dims@ == old(store).img_dims@,
    {
        let bound = store.img_refs.len();
        let idx = (self.h - 1) as usize;
        vstd::std_specs::core::index_set(&mut store.img_fill, idx, fill);
        Ok(())
    }

    /// Take one more reference, as cloning the wrapper does.
    pub fn duplicate(&self, store: &mut GfxStore) -> (r: Image)
        requires
            old(store).wf(),
            old(store).valid_img(self.h),
            old(store).img_refs@[old(store).idx_of(self.h)] < u64::MAX,
        ensures
            final(store).wf(),
            r.h == self.h,
            final(store).img_refs@ == old(store).img_refs@.update(
                old(store).idx_of(self.h),
                (old(store).img_refs@[old(store).idx_of(self.h)] + 1) as u64,
            ),
            final(store).img_dims@ == old(store).img_dims@,
    {
        let bound = store.img_refs.len();
        let idx = (self.h - 1) as usize;
        let n = store.img_refs[idx] + 1;
        vstd::std_specs::core::index_set(&mut store.img_refs, idx, n);
        Image { h: self.h }
    }

    /// Give the wrapper's reference back, as dropping it does.
    pub fn release(self, store: &mut GfxStore)
        requires
            old(store).wf(),
            old(store).valid_img(self.h),
            old(store).img_refs@[old(store).idx_of(self.h)] > 0,
        ensures
            final(store).wf(),
            final(store).img_refs@ == old(store).img_refs@.update(
                old(store).idx_of(self.h),
                (old(store).img_refs@[old(store).idx_of(self.h)] - 1) as u64,
            ),
            final(store).img_dims@ == old(store).img_dims@,
    {
        let bound = store.img_refs.len();
        let idx = (self.h - 1) as usize;
        let n = store.img_refs[idx] - 1;
        vstd::std_specs::core::index_set(&mut store.img_refs, idx, n);
    }
}

/// Graphics path object: an owned reference to an engine path.
pub struct Path {
    /// The path handle.
    pub h: u64,
}

impl Path {
    /// Create a new empty path.
    pub fn new(store: &mut GfxStore) -> (r: Result<Path, GRAPHIN_RESULT>)
        requires
            old(store).wf(),
            old(store).path_refs@.len() < u64::MAX - 1,
        ensures
            final(store).wf(),
            r matches Ok(p) && {
                &&& p.h == old(store).path_refs@.len() + 1
                &&& final(store).valid_path(p.h)
                &&& final(store).path_refs@ == old(store).path_refs@.push(1u64)
                &&& final(store).path_segments@ == old(store).path_segments@.push(0u64)
                &&& final(store).path_closed@ == old(store).path_closed@.push(false)
            },
            final(store).img_refs@ == old(store).img_refs@,
            final(store).gfx_refs@ == old(store).gfx_refs@,
    {
        let h = store.path_refs.len() as u64 + 1;
        store.path_refs.push(1);
        store.path_segments.push(0);
        store.path_closed.push(false);
        Ok(Path { h })
    }

    /// Close the current figure of the path.
    pub fn close(&self, store: &mut GfxStore) -> (r: Result<(), GRAPHIN_RESULT>)
        requires
            old(store).wf(),
            old(store).valid_path(self.h),
        ensures
            final(store).wf(),
            r is Ok,
            final(store).path_closed@ == old(store).path_closed@.update(
                old(store).idx_of(self.h),
                true,
            ),
            final(store).path_refs@ == old(store).path_refs@,
            final(store).path_segments@ == old(store).path_segments@,
    {
        let bound = store.path_refs.len();
        let idx = (self.h - 1) as usize;
        vstd::std_specs::core::index_set(&mut store.path_closed, idx, true);
        Ok(())
    }

    /// Take one more reference, as cloning the wrapper does.
    pub fn duplicate(&self, store: &mut GfxStore) -> (r: Path)
        requires
            old(store).wf(),
            old(store).valid_path(self.h),
            old(store).path_refs@[old(store).idx_of(self.h)] < u64::MAX,
        ensures
            final(store).wf(),
            r.h == self.h,
            final(store).path_refs@ == old(store).path_refs@.update(
                old(store).idx_of(self.h),
                (old(store).path_refs@[old(store).idx_of(self.h)] + 1) as u64,
            ),
    {
        let bound = store.path_refs.len();
        let idx = (self.h - 1) as usize;
        let n = store.path_refs[idx] + 1;
        vstd::std_specs::core::index_set(&mut store.path_refs, idx, n);
        Path { h: self.h }
    }

    /// Give the wrapper's reference back, as dropping it does.
    pub fn release(self, store: &mut GfxStore)
        requires
            old(store).wf(),
            old(store).valid_path(self.h),
            old(store).path_refs@[old(store).idx_of(self.h)] > 0,
        ensures
            final(store).wf(),
            final(store).path_refs@ == old(store).path_refs@.update(
                old(store).idx_of(self.h),
                (old(store).path_refs@[old(store).idx_of(self.h)] - 1) as u64,
            ),
    {
        let bound = store.path_refs.len();
        let idx = (self.h - 1) as usize;
        let n = store.path_refs[idx] - 1;
        vstd::std_specs::core::index_set(&mut store.path_refs, idx, n);
    }
}

/// Drawing surface of an element or image.
pub struct Graphics {
    /// The surface handle.
    pub h: u64,
}

impl Graphics {
    /// Save the current drawing state.
    pub fn push_state(&self, store: &mut GfxStore) -> (r: Result<(), GRAPHIN_RESULT>)
        requires
            old(store).wf(),
            old(store).valid_gfx(self.h),
            old(store).gfx_depth@[old(store).idx_of(self.h)] < u64::MAX,
        ensures
            final(store).wf(),
            r is Ok,
            final(store).gfx_depth@ == old(store).gfx_depth@.update(
                old(store).idx_of(self.h),
                (old(store).gfx_depth@[old(store).idx_of(self.h)] + 1) as u64,
            ),
            final(store).gfx_refs@ == old(store).gfx_refs@,
    {
        let bound = store.gfx_refs.len();
        let idx = (self.h - 1) as usize;
        let n = store.gfx_depth[idx] + 1;
        vstd::std_specs::core::index_set(&mut store.gfx_depth, idx, n);
        Ok(())
    }

    /// Restore the last saved drawing state; a restore without a save
    /// fails and changes nothing.
    pub fn pop_state(&self, store: &mut GfxStore) -> (r: Result<(), GRAPHIN_RESULT>)
        requires
            old(store).wf(),
            old(store).valid_gfx(self.h),
        ensures
            final(store).wf(),
            old(store).gfx_depth@[old(store).idx_of(self.h)] > 0 ==> r is Ok
                && final(store).gfx_depth@ == old(store).gfx_depth@.update(
                old(store).idx_of(self.h),
                (old(store).gfx_depth@[old(store).idx_of(self.h)] - 1) as u64,
            ),
            old(store).gfx_depth@[old(store).idx_of(self.h)] == 0 ==> r == Err::<
                (),
                GRAPHIN_RESULT,
            >(GRAPHIN_RESULT::FAILURE) && *final(store) == *old(store),
            final(store).gfx_refs@ == old(store).gfx_refs@,
    {
        let bound = store.gfx_refs.len();
        let idx = (self.h - 1) as usize;
        let depth = store.gfx_depth[idx];
        if depth > 0 {
            vstd::std_specs::core::index_set(&mut store.gfx_depth, idx, depth - 1);
            Ok(())
        } else {
            Err(GRAPHIN_RESULT::FAILURE)
        }
    }

    /// Set the fill color for subsequent drawing.
    pub fn fill_color(&self, store: &mut GfxStore, fill: Color) -> (r: Result<(), GRAPHIN_RESULT>)
        requires
            old(store).wf(),
            old(store).valid_gfx(self.h),
        ensures
            final(store).wf(),
            r is Ok,
            final(store).gfx_fill@ == old(store).gfx_fill@.update(
                old(store).idx_of(self.h),
                Some(fill),
            ),
            final(store).gfx_line@ == old(store).gfx_line@,
            final(store).gfx_refs@ == old(store).gfx_refs@,
    {
        let bound = store.gfx_refs.len();
        let idx = (self.h - 1) as usize;
        vstd::std_specs::core::index_set(&mut store.gfx_fill, idx, Some(fill));
        Ok(())
    }

    /// Choose between even-odd and non-zero fill rules.
    pub fn fill_mode(&self, store: &mut GfxStore, even_odd: bool) -> (r: Result<(), GRAPHIN_RESULT>)
        requires
            old(store).wf(),
            old(store).valid_gfx(self.h),
        ensures
            final(store).wf(),
            r is Ok,
            final(store).gfx_even_odd@ == old(store).gfx_even_odd@.update(
                old(store).idx_of(self.h),
                even_odd,
            ),
            final(store).gfx_refs@ == old(store).gfx_refs@,
    {
        let bound = store.gfx_refs.len();
        let idx = (self.h - 1) as usize;
        vstd::std_specs::core::index_set(&mut store.gfx_even_odd, idx, even_odd);
        Ok(())
    }

    /// Stop filling shapes.
    pub fn no_fill(&self, store: &mut GfxStore) -> (r: Result<(), GRAPHIN_RESULT>)
        requires
            old(store).wf(),
            old(store).valid_gfx(self.h),
        ensures
            final(store).wf(),
            r is Ok,
            final(store).gfx_fill@ == old(store).gfx_fill@.update(
                old(store).idx_of(self.h),
                None::<Color>,
            ),
            final(store).gfx_line@ == old(store).gfx_line@,
            final(store).gfx_refs@ == old(store).gfx_refs@,
    {
        let bound = store.gfx_refs.len();
        let idx = (self.h - 1) as usize;
        vstd::std_specs::core::index_set(&mut store.gfx_fill, idx, None);
        Ok(())
    }

    /// Set the line color for subsequent drawing.
    pub fn line_color(&self, store: &mut GfxStore, line: Color) -> (r: Result<(), GRAPHIN_RESULT>)
        requires
            old(store).wf(),
            old(store).valid_gfx(self.h),
        ensures
            final(store).wf(),
            r is Ok,
            final(store).gfx_line@ == old(store).gfx_line@.update(
                old(store).idx_of(self.h),
                Some(line),
            ),
            final(store).gfx_fill@ == old(store).gfx_fill@,
            final(store).gfx_refs@ == old(store).gfx_refs@,
    {
        let bound = store.gfx_refs.len();
        let idx = (self.h - 1) as usize;
        vstd::std_specs::core::index_set(&mut store.gfx_line, idx, Some(line));
        Ok(())
    }

    /// Set the line cap style.
    pub fn line_cap(&self, store: &mut GfxStore, cap: SCITER_LINE_CAP_TYPE) -> (r: Result<
        (),
        GRAPHIN_RESULT,
    >)
        requires
            old(store).wf(),
            old(store).valid_gfx(self.h),
        ensures
            final(store).wf(),
            r is Ok,
            final(store).gfx_cap@ == old(store).gfx_cap@.update(old(store).idx_of(self.h), cap),
            final(store).gfx_refs@ == old(store).gfx_refs@,
    {
        let bound = store.gfx_refs.len();
        let idx = (self.h - 1) as usize;
        vstd::std_specs::core::index_set(&mut store.gfx_cap, idx, cap);
        Ok(())
    }

    /// Set the line join style.
    pub fn line_join(&self, store: &mut GfxStore, join: SCITER_LINE_JOIN_TYPE) -> (r: Result<
        (),
        GRAPHIN_RESULT,
    >)
        requires
            old(store).wf(),
            old(store).valid_gfx(self.h),
        ensures
            final(store).wf(),
            r is Ok,
            final(store).gfx_join@ == old(store).gfx_join@.update(old(store).idx_of(self.h), join),
            final(store).gfx_refs@ == old(store).gfx_refs@,
    {
        let bound = store.gfx_refs.len();
        let idx = (self.h - 1) as usize;
        vstd::std_specs::core::index_set(&mut store.gfx_join, idx, join);
        Ok(())
    }

    /// Stop drawing lines.
    pub fn no_line(&self, store: &mut GfxStore) -> (r: Result<(), GRAPHIN_RESULT>)
        requires
            old(store).wf(),
            old(store).valid_gfx(self.h),
        ensures
            final(store).wf(),
            r is Ok,
            final(store).gfx_line@ == old(store).gfx_line@.update(
                old(store).idx_of(self.h),
                None::<Color>,
            ),
            final(store).gfx_fill@ == old(store).gfx_fill@,
            final(store).gfx_refs@ == old(store).gfx_refs@,
    {
        let bound = store.gfx_refs.len();
        let idx = (self.h - 1) as usize;
        vstd::std_specs::core::index_set(&mut store.gfx_line, idx, None);
        Ok(())
    }

    /// Draw a path on the surface with the given mode.
    pub fn draw_path(&self, store: &mut GfxStore, path: &Path, mode: DRAW_PATH_MODE) -> (r: Result<
        (),
        GRAPHIN_RESULT,
    >)
        requires
            old(store).wf(),
            old(store).valid_gfx(self.h),
            old(store).gfx_draws@[old(store).idx_of(self.h)] < u64::MAX,
        ensures
            final(store).wf(),
            old(store).valid_path(path.h) ==> r is Ok && final(store).gfx_draws@ == old(
                store,
            ).gfx_draws@.update(
                old(store).idx_of(self.h),
                (old(store).gfx_draws@[old(store).idx_of(self.h)] + 1) as u64,
            ),
            !old(store).valid_path(path.h) ==> r == Err::<(), GRAPHIN_RESULT>(
                GRAPHIN_RESULT::BAD_PARAM,
            ) && *final(store) == *old(store),
            final(store).gfx_refs@ == old(store).gfx_refs@,
            final(store).path_refs@ == old(store).path_refs@,
    {
        if !(path.h >= 1 && path.h <= store.path_refs.len() as u64) {
            return Err(GRAPHIN_RESULT::BAD_PARAM);
        }
        let bound = store.gfx_refs.len();
        let idx = (self.h - 1) as usize;
        let n = store.gfx_draws[idx] + 1;
        vstd::std_specs::core::index_set(&mut store.gfx_draws, idx, n);
        Ok(())
    }

    /// Take one more reference, as cloning the wrapper does.
    pub fn duplicate(&self, store: &mut GfxStore) -> (r: Graphics)
        requires
            old(store).wf(),
            old(store).valid_gfx(self.h),
            old(store).gfx_refs@[old(store).idx_of(self.h)] < u64::MAX,
        ensures
            final(store).wf(),
            r.h == self.h,
            final(store).gfx_refs@ == old(store).gfx_refs@.update(
                old(store).idx_of(self.h),
                (old(store).gfx_refs@[old(store).idx_of(self.h)] + 1) as u64,
            ),
    {
        let bound = store.gfx_refs.len();
        let idx = (self.h - 1) as usize;
        let n = store.gfx_refs[idx] + 1;
        vstd::std_specs::core::index_set(&mut store.gfx_refs, idx, n);
        Graphics { h: self.h }
    }

    /// Give the wrapper's reference back, as dropping it does.
    pub fn release(self, store: &mut GfxStore)
        requires
            old(store).wf(),
            old(store).valid_gfx(self.h),
            old(store).gfx_refs@[old(store).idx_of(self.h)] > 0,
        ensures
            final(store).wf(),
            final(store).gfx_refs@ == old(store).gfx_refs@.update(
                old(store).idx_of(self.h),
                (old(store).gfx_refs@[old(store).idx_of(self.h)] - 1) as u64,
            ),
    {
        let bound = store.gfx_refs.len();
        let idx = (self.h - 1) as usize;
        let n = store.gfx_refs[idx] - 1;
        vstd::std_specs::core::index_set(&mut store.gfx_refs, idx, n);
    }
}

} // verus!
