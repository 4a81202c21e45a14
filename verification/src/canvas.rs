//! The braille canvas of the `drawille` crate, as far as the machine draws on it.

use drawille::Canvas;
use vstd::prelude::*;

verus! {

/// `drawille::Canvas`, taken as it stands: the proofs see nothing of its
/// inside, only what the items below say of its methods.
#[verifier::external_type_specification]
#[verifier::external_body]
pub struct ExCanvas(drawille::Canvas);

/// The pixels of a canvas that are set: the coordinates `(x, y)`, with `x` below
/// 131072 and `y` below 262144, for which `Canvas::get` answers `true`.
pub uninterp spec fn canvas_pixels(canvas: Canvas) -> Set<(int, int)>;

/// `Canvas::new` starts with an empty cell map, so no pixel is set.
pub assume_specification[ Canvas::new ](width: u32, height: u32) -> (canvas: Canvas)
    ensures
        canvas_pixels(canvas) == Set::<(int, int)>::empty(),
;

/// `Canvas::set` turns on the one dot of the one cell that `(x, y)` names and
/// leaves every other dot as it was. The bounds keep the cell's coordinates
/// within the sixteen bits it is stored under.
pub assume_specification[ Canvas::set ](canvas: &mut Canvas, x: u32, y: u32)
    requires
        x < 0x2_0000,
        y < 0x4_0000,
    ensures
        canvas_pixels(*final(canvas)) == canvas_pixels(*old(canvas)).insert((x as int, y as int)),
;

/// `Canvas::unset` turns off the one dot of the one cell that `(x, y)` names and
/// leaves every other dot as it was.
pub assume_specification[ Canvas::unset ](canvas: &mut Canvas, x: u32, y: u32)
    requires
        x < 0x2_0000,
        y < 0x4_0000,
    ensures
        canvas_pixels(*final(canvas)) == canvas_pixels(*old(canvas)).remove((x as int, y as int)),
;

/// The derived `Clone` of `Canvas` copies the cell map, so the copy has the
/// same pixels set.
pub assume_specification[ <Canvas as Clone>::clone ](canvas: &Canvas) -> (copy: Canvas)
    ensures
        canvas_pixels(copy) == canvas_pixels(*canvas),
;

} // verus!
