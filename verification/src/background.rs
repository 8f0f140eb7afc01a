//! The background layer: fill mode, cached scale transform, paint state,
//! source path and decoded image, with the operations a render loop drives.

use vstd::prelude::*;

verus! {

/// How the image's native dimensions are mapped onto the viewport.
#[derive(Clone, Copy, Debug, PartialEq, Eq, Structural)]
pub enum BackgroundMode {
    /// Anisotropic scale: the image exactly fills the viewport, ignoring
    /// its aspect ratio.
    Stretch,
    /// Uniform scale: the image covers the viewport, preserving its aspect
    /// ratio; overflow is cropped.
    Fill,
}

impl Default for BackgroundMode {
    /// The default fill mode is `Stretch`.
    fn default() -> (mode: BackgroundMode)
        ensures
            mode == BackgroundMode::Stretch,
    {
        BackgroundMode::Stretch
    }
}

/// What the layer reads of a decoded image: its pixel dimensions.  The
/// pixel data itself stays with the decoder's caller.
#[derive(Clone, Copy, Debug, PartialEq, Eq, Structural)]
pub struct ImageData {
    pub width: u32,
    pub height: u32,
}

/// The viewport rectangle the background should fill, as the windowing
/// host reports it.
#[derive(Clone, Copy, Debug, PartialEq, Eq, Structural)]
pub struct Viewport {
    pub x: u32,
    pub y: u32,
    pub width: u32,
    pub height: u32,
}

/// The cached model matrix: a 2-D scale held as two exact rational
/// factors, `sx_num / sx_den` horizontally and `sy_num / sy_den`
/// vertically.
#[derive(Clone, Copy, Debug, PartialEq, Eq, Structural)]
pub struct Matrix {
    pub sx_num: u32,
    pub sx_den: u32,
    pub sy_num: u32,
    pub sy_den: u32,
}

impl Matrix {
    /// Both denominators are positive, so each factor is a well-defined
    /// rational.
    pub open spec fn wf(self) -> bool {
        self.sx_den > 0 && self.sy_den > 0
    }

    /// The identity transform: both factors equal one.
    pub open spec fn identity() -> Matrix {
        Matrix { sx_num: 1, sx_den: 1, sy_num: 1, sy_den: 1 }
    }
}

impl Default for Matrix {
    /// A fresh matrix is the identity.
    fn default() -> (m: Matrix)
        ensures
            m == Matrix::identity(),
    {
        Matrix { sx_num: 1, sx_den: 1, sy_num: 1, sy_den: 1 }
    }
}

/// The scale a fill mode asks for, for an image of positive dimensions
/// inside a viewport.  `Stretch` scales each axis independently to the
/// viewport's edge; `Fill` picks the larger of the two axis ratios as a
/// single uniform factor, so the scaled image covers the viewport.
pub open spec fn mode_scale(mode: BackgroundMode, img: ImageData, vp: Viewport) -> Matrix {
    match mode {
        BackgroundMode::Stretch => Matrix {
            sx_num: vp.width,
            sx_den: img.width,
            sy_num: vp.height,
            sy_den: img.height,
        },
        BackgroundMode::Fill => if vp.width * img.height >= vp.height * img.width {
            Matrix { sx_num: vp.width, sx_den: img.width, sy_num: vp.width, sy_den: img.width }
        } else {
            Matrix {
                sx_num: vp.height,
                sx_den: img.height,
                sy_num: vp.height,
                sy_den: img.height,
            }
        },
    }
}

/// The matrix the layer caches: the fill mode's scale once both an image
/// and a viewport are known and the image has positive dimensions, and
/// the identity before that.
pub open spec fn cached_matrix(
    mode: BackgroundMode,
    img: Option<ImageData>,
    vp: Option<Viewport>,
) -> Matrix {
    match (img, vp) {
        (Some(i), Some(v)) => if i.width > 0 && i.height > 0 {
            mode_scale(mode, i, v)
        } else {
            Matrix::identity()
        },
        _ => Matrix::identity(),
    }
}

/// The product of two 32-bit values fits in 64 bits.
proof fn lemma_u32_mul_fits(a: u32, b: u32)
    ensures
        (a as int) * (b as int) <= 0xffff_fffe_0000_0001,
{
    assert((a as int) * (b as int) <= 0xffff_ffff * 0xffff_ffff) by (nonlinear_arith)
        requires
            a <= 0xffff_ffff,
            b <= 0xffff_ffff,
    ;
}

/// Computes the matrix that `cached_matrix` describes.
fn compute_matrix(mode: BackgroundMode, img: &Option<ImageData>, vp: &Option<Viewport>) -> (m:
    Matrix)
    ensures
        m == cached_matrix(mode, *img, *vp),
        m.wf(),
{
    match (img, vp) {
        (Some(i), Some(v)) => {
            if i.width > 0 && i.height > 0 {
                match mode {
                    BackgroundMode::Stretch => Matrix {
                        sx_num: v.width,
                        sx_den: i.width,
                        sy_num: v.height,
                        sy_den: i.height,
                    },
                    BackgroundMode::Fill => {
                        proof {
                            lemma_u32_mul_fits(v.width, i.height);
                            lemma_u32_mul_fits(v.height, i.width);
                        }
                        let wide: bool = (v.width as u64) * (i.height as u64) >= (v.height as u64)
                            * (i.width as u64);
                        if wide {
                            Matrix {
                                sx_num: v.width,
                                sx_den: i.width,
                                sy_num: v.width,
                                sy_den: i.width,
                            }
                        } else {
                            Matrix {
                                sx_num: v.height,
                                sx_den: i.height,
                                sy_num: v.height,
                                sy_den: i.height,
                            }
                        }
                    },
                }
            } else {
                Matrix { sx_num: 1, sx_den: 1, sy_num: 1, sy_den: 1 }
            }
        },
        _ => Matrix { sx_num: 1, sx_den: 1, sy_num: 1, sy_den: 1 },
    }
}

/// Compositing parameters applied when the image is drawn: an 8-bit
/// alpha, fully opaque by default.
#[derive(Clone, Copy, Debug, PartialEq, Eq, Structural)]
pub struct Paint {
    pub alpha: u8,
}

impl Default for Paint {
    /// Fresh paint is fully opaque.
    fn default() -> (p: Paint)
        ensures
            p.alpha == 255,
    {
        Paint { alpha: 255 }
    }
}

/// What a reload reports back to its caller.
#[derive(Clone, Copy, Debug, PartialEq, Eq, Structural)]
pub enum ReloadStatus {
    /// The configured file was decoded and the cached image replaced.
    Reloaded,
    /// No source path is configured, so there is nothing to reload.
    /// Informational, not a failure.
    NoImageConfigured,
    /// The configured file could not be read or decoded; the previously
    /// decoded image, if any, is kept.
    ImageLoadError,
}

/// One compositing call for the renderer to perform: draw `image` at
/// `(offset_x, offset_y)`, scaled by `matrix`, blended with `alpha`.
#[derive(Clone, Copy, Debug, PartialEq, Eq, Structural)]
pub struct DrawCommand {
    pub image: ImageData,
    pub offset_x: i32,
    pub offset_y: i32,
    pub alpha: u8,
    pub matrix: Matrix,
}

/// The background layer itself.
#[derive(Debug)]
pub struct Background {
    /// How the image is mapped onto the viewport.
    pub fill_mode: BackgroundMode,
    /// Cached model matrix, kept equal to what `fill_mode` asks for on
    /// the current image and viewport.
    pub matrix: Matrix,
    /// Paint info (for transparency).
    pub paint: Paint,
    /// The file the background is loaded from; `None` until one is
    /// configured.
    pub image_path: Option<String>,
    /// The most recently decoded image; `None` until a decode succeeds.
    pub image: Option<ImageData>,
    /// The viewport rectangle last reported by the host; `None` until
    /// one arrives.
    pub viewport: Option<Viewport>,
}

impl Background {
    /// The layer's invariant: a decoded image is only ever held for a
    /// configured source path, and the cached matrix is exactly what the
    /// fill mode asks for on the current image and viewport.
    pub open spec fn wf(self) -> bool {
        &&& self.image is Some ==> self.image_path is Some
        &&& self.matrix == cached_matrix(self.fill_mode, self.image, self.viewport)
        &&& self.matrix.wf()
    }
}

impl Default for Background {
    /// A fresh layer: stretch mode, identity matrix, fully opaque, no
    /// image configured, no viewport known.
    fn default() -> (bg: Background)
        ensures
            bg.wf(),
            bg.fill_mode == BackgroundMode::Stretch,
            bg.matrix == Matrix::identity(),
            bg.paint.alpha == 255,
            bg.image_path is None,
            bg.image is None,
            bg.viewport is None,
    {
        Background {
            fill_mode: BackgroundMode::default(),
            matrix: Matrix::default(),
            paint: Paint::default(),
            image_path: None,
            image: None,
            viewport: None,
        }
    }
}

/// What `set_opacity` stores: the scaled opacity saturated to the 8-bit
/// alpha range.
pub open spec fn clamped_alpha(scaled: int) -> int {
    if scaled < 0 {
        0
    } else if scaled > 255 {
        255
    } else {
        scaled
    }
}

/// Relies on `num::clamp`: returns its input limited to `[lo, hi]`.
/// `num::clamp` debug-asserts that the bounds are ordered, so callers
/// must keep `lo <= hi`.
#[verifier::external_body]
fn clamp_i64(value: i64, lo: i64, hi: i64) -> (r: i64)
    requires
        lo <= hi,
    ensures
        r == (if value < lo {
            lo
        } else if value > hi {
            hi
        } else {
            value
        }),
{
    num::clamp(value, lo, hi)
}

/// The state after configuring `file` as the source image, paired with
/// whether that configuration calls for a decode: adopting a path
/// (first configuration, or a path that differs from the current one)
/// does; re-giving the already configured path is a no-op.
pub open spec fn spec_load(s: Background, file: String) -> (Background, bool) {
    match s.image_path {
        Some(p) => if p@ == file@ {
            (s, false)
        } else {
            (Background { image_path: Some(file), ..s }, true)
        },
        None => (Background { image_path: Some(file), ..s }, true),
    }
}

/// The state after a reload whose decode came back as `decoded`, paired
/// with what the reload reports: with no path configured nothing
/// happens; a successful decode replaces the image and refreshes the
/// cached matrix; a failed decode changes nothing.
pub open spec fn spec_reload(s: Background, decoded: Option<ImageData>) -> (
    Background,
    ReloadStatus,
) {
    if s.image_path is None {
        (s, ReloadStatus::NoImageConfigured)
    } else {
        match decoded {
            Some(img) => (
                Background {
                    image: Some(img),
                    matrix: cached_matrix(s.fill_mode, Some(img), s.viewport),
                    ..s
                },
                ReloadStatus::Reloaded,
            ),
            None => (s, ReloadStatus::ImageLoadError),
        }
    }
}

/// The state after the host reports a new viewport rectangle: the
/// rectangle is recorded and the cached matrix refreshed for it.
pub open spec fn spec_update_window(
    s: Background,
    pos_x: u32,
    pos_y: u32,
    width: u32,
    height: u32,
) -> Background {
    let vp = Viewport { x: pos_x, y: pos_y, width, height };
    Background { viewport: Some(vp), matrix: cached_matrix(s.fill_mode, s.image, Some(vp)), ..s }
}

/// The compositing call the layer currently asks for: none while no
/// decoded image is held, else one draw of the image at the origin,
/// under the cached matrix, with the current alpha.
pub open spec fn spec_draw(s: Background) -> Option<DrawCommand> {
    match s.image {
        Some(img) => Some(
            DrawCommand {
                image: img,
                offset_x: 0,
                offset_y: 0,
                alpha: s.paint.alpha,
                matrix: s.matrix,
            },
        ),
        None => None,
    }
}

impl Background {
    /// Configures `image_file` as the source image and says whether a
    /// decode is now due: `true` when the path was adopted (first
    /// configuration, or a path different from the current one, compared
    /// lexically), `false` when the same path was already configured.
    /// The caller follows a `true` result with `reload_image`; until
    /// then the previously decoded image stays in place.
    pub fn load_image(&mut self, image_file: String) -> (needs_reload: bool)
        requires
            old(self).wf(),
        ensures
            final(self).wf(),
            *final(self) == spec_load(*old(self), image_file).0,
            needs_reload == spec_load(*old(self), image_file).1,
    {
        let same: bool = match &self.image_path {
            Some(p) => *p == image_file,
            None => false,
        };
        if same {
            false
        } else {
            self.image_path = Some(image_file);
            true
        }
    }

    /// Finishes a reload of the configured source file with the outcome
    /// of its decode, which the caller performs: `decoded` is `Some`
    /// dimensions on a successful decode and `None` when the file could
    /// not be read or was corrupt or unsupported.  With no source path
    /// configured there is nothing to reload and the call only reports
    /// so; a failed decode is recoverable and keeps the previously
    /// decoded image; a successful one replaces it and refreshes the
    /// cached matrix.
    pub fn reload_image(&mut self, decoded: Option<ImageData>) -> (status: ReloadStatus)
        requires
            old(self).wf(),
        ensures
            final(self).wf(),
            *final(self) == spec_reload(*old(self), decoded).0,
            status == spec_reload(*old(self), decoded).1,
    {
        if self.image_path.is_none() {
            return ReloadStatus::NoImageConfigured;
        }
        match decoded {
            Some(img) => {
                self.image = Some(img);
                self.matrix = compute_matrix(self.fill_mode, &self.image, &self.viewport);
                ReloadStatus::Reloaded
            },
            None => ReloadStatus::ImageLoadError,
        }
    }

    /// Describes the compositing call to perform on the target surface,
    /// or `None` while no decoded image is held: drawing is then a
    /// silent no-op and the surface is not to be touched.
    pub fn draw(&self) -> (cmd: Option<DrawCommand>)
        ensures
            cmd == spec_draw(*self),
    {
        match &self.image {
            Some(img) => Some(
                DrawCommand {
                    image: *img,
                    offset_x: 0,
                    offset_y: 0,
                    alpha: self.paint.alpha,
                    matrix: self.matrix,
                },
            ),
            None => None,
        }
    }

    /// Records the viewport rectangle the host reports and refreshes the
    /// cached matrix, so the fill mode's scaling stays correct after a
    /// move or resize.
    pub fn update_window_info(&mut self, pos_x: u32, pos_y: u32, width: u32, height: u32)
        requires
            old(self).wf(),
        ensures
            final(self).wf(),
            *final(self) == spec_update_window(*old(self), pos_x, pos_y, width, height),
    {
        self.viewport = Some(Viewport { x: pos_x, y: pos_y, width, height });
        self.matrix = compute_matrix(self.fill_mode, &self.image, &self.viewport);
    }

    /// Sets the opacity used by subsequent draws.  `scaled` is the
    /// desired opacity already scaled to the 8-bit range (an opacity `o`
    /// nominally in `[0.0, 1.0]` arrives as `o * 255` truncated to an
    /// integer); values outside `[0, 255]` are saturated, never
    /// rejected.
    pub fn set_opacity(&mut self, scaled: i64)
        requires
            old(self).wf(),
        ensures
            final(self).wf(),
            final(self).paint.alpha == clamped_alpha(scaled as int),
            final(self).fill_mode == old(self).fill_mode,
            final(self).matrix == old(self).matrix,
            final(self).image_path == old(self).image_path,
            final(self).image == old(self).image,
            final(self).viewport == old(self).viewport,
    {
        let alpha: i64 = clamp_i64(scaled, 0, 255);
        self.paint = Paint { alpha: alpha as u8 };
    }
}

/// Configuring the same source path twice asks for at most one decode:
/// whatever the starting state, once `file` is configured, configuring
/// `file` again changes nothing and requests no decode.
pub proof fn lemma_load_same_path_once(s: Background, file: String)
    ensures
        spec_load(spec_load(s, file).0, file) == (spec_load(s, file).0, false),
{
}

/// Configuring a path different from the current one (or a first path)
/// asks for a decode, and completing that decode replaces the decoded
/// image with the fresh one.
pub proof fn lemma_new_path_replaces_image(s: Background, file: String, img: ImageData)
    requires
        s.image_path matches Some(p) ==> p@ != file@,
    ensures
        spec_load(s, file).1,
        spec_reload(spec_load(s, file).0, Some(img)).0.image == Some(img),
        spec_reload(spec_load(s, file).0, Some(img)).1 == ReloadStatus::Reloaded,
{
}

/// With no source path ever configured, a reload leaves the layer
/// untouched, so the decoded image stays absent, and only reports that
/// there was nothing to reload.
pub proof fn lemma_reload_unconfigured(s: Background, decoded: Option<ImageData>)
    requires
        s.wf(),
        s.image_path is None,
    ensures
        spec_reload(s, decoded) == (s, ReloadStatus::NoImageConfigured),
        spec_reload(s, decoded).0.image is None,
{
}

/// A failed decode is recoverable: the layer, and in particular any
/// previously decoded image, is left exactly as it was, and the failure
/// is reported as `ImageLoadError`.
pub proof fn lemma_reload_failure_keeps_image(s: Background)
    requires
        s.image_path is Some,
    ensures
        spec_reload(s, None) == (s, ReloadStatus::ImageLoadError),
{
}

/// Under `Stretch` the scaled image matches the viewport exactly on
/// both axes: each scale factor times the image edge equals the
/// viewport edge (stated over the rationals, cleared of denominators).
pub proof fn lemma_stretch_scale_exact(img: ImageData, vp: Viewport)
    requires
        img.width > 0,
        img.height > 0,
    ensures
        mode_scale(BackgroundMode::Stretch, img, vp).sx_num * img.width == vp.width * mode_scale(
            BackgroundMode::Stretch,
            img,
            vp,
        ).sx_den,
        mode_scale(BackgroundMode::Stretch, img, vp).sy_num * img.height == vp.height * mode_scale(
            BackgroundMode::Stretch,
            img,
            vp,
        ).sy_den,
{
}

/// Under `Fill` the uniformly scaled image covers the viewport on both
/// axes: each scale factor times the image edge is at least the
/// viewport edge (stated over the rationals, cleared of denominators),
/// and both axes use the same factor.
pub proof fn lemma_fill_scale_covers(img: ImageData, vp: Viewport)
    requires
        img.width > 0,
        img.height > 0,
    ensures
        mode_scale(BackgroundMode::Fill, img, vp).sx_num * img.width >= vp.width * mode_scale(
            BackgroundMode::Fill,
            img,
            vp,
        ).sx_den,
        mode_scale(BackgroundMode::Fill, img, vp).sy_num * img.height >= vp.height * mode_scale(
            BackgroundMode::Fill,
            img,
            vp,
        ).sy_den,
        mode_scale(BackgroundMode::Fill, img, vp).sx_num == mode_scale(
            BackgroundMode::Fill,
            img,
            vp,
        ).sy_num,
        mode_scale(BackgroundMode::Fill, img, vp).sx_den == mode_scale(
            BackgroundMode::Fill,
            img,
            vp,
        ).sy_den,
{
}

} // verus!
