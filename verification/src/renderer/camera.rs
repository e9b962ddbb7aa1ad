use crate::alg::scalar::{fraction, is_powf_of, one, ratio, zero, Real, Scalar};
use crate::alg::utils::{are_turns_of, to_radians, view, view_matrix};
use crate::alg::{Mat4, Vec4};
use vstd::prelude::*;
use vstd::string::StringSliceAdditionalSpecFns;

verus! {

/// Where the viewer stands and looks: a position, three angles in degrees,
/// and a zoom that sets the width of an orthographic view.
pub struct Camera<S> {
    position: Vec4<S>,
    pitch: S,
    yaw: S,
    roll: S,
    zoom: S,
}

/// The key is named by the single ASCII letter `letter`.
pub open spec fn names(key: &str, letter: u8) -> bool {
    key.spec_bytes() =~= seq![letter]
}

/// The step that a key asks for in the plane: up and down for `w` and `s`,
/// left and right for `a` and `d`, none for any other key.
pub open spec fn step_2d<S: Scalar>(key: &str) -> Vec4<S> {
    if names(key, 'w' as u8) {
        Vec4([zero(), one(), zero(), zero()])
    } else if names(key, 's' as u8) {
        Vec4([zero(), S::of_i32(-1i32), zero(), zero()])
    } else if names(key, 'a' as u8) {
        Vec4([S::of_i32(-1i32), zero(), zero(), zero()])
    } else if names(key, 'd' as u8) {
        Vec4([one(), zero(), zero(), zero()])
    } else {
        Vec4::zeros()
    }
}

/// The step that a key asks for in space, for a camera whose pitch and yaw
/// have the given cosines and sines: along the line of sight for `w` and
/// against it for `s`, sideways for `d` and `a`, none for any other key.
pub open spec fn step_3d<S: Scalar>(
    key: &str,
    pitch_cos: S,
    pitch_sin: S,
    yaw_cos: S,
    yaw_sin: S,
) -> Vec4<S> {
    if names(key, 'w' as u8) {
        Vec4([yaw_sin.product(pitch_cos), pitch_sin, yaw_cos.product(pitch_cos), zero()])
    } else if names(key, 's' as u8) {
        Vec4(
            [
                yaw_sin.negation().product(pitch_cos),
                pitch_sin.negation(),
                yaw_cos.negation().product(pitch_cos),
                zero(),
            ],
        )
    } else if names(key, 'd' as u8) {
        Vec4([yaw_cos.negation(), zero(), yaw_sin, zero()])
    } else if names(key, 'a' as u8) {
        Vec4([yaw_cos, zero(), yaw_sin.negation(), zero()])
    } else {
        Vec4::zeros()
    }
}

/// Whether `key` is the single ASCII letter `letter`.
fn is_letter(key: &str, letter: u8) -> (answer: bool)
    ensures
        answer == names(key, letter),
{
    let bytes = key.as_bytes();
    bytes.len() == 1 && bytes[0] == letter
}

/// The step that a key asks for in space, for a camera whose pitch and yaw
/// have the given cosines and sines.
pub fn key_step_3d<S: Scalar>(key: &str, pitch_cos: S, pitch_sin: S, yaw_cos: S, yaw_sin: S) -> (step:
    Vec4<S>)
    ensures
        step == step_3d(key, pitch_cos, pitch_sin, yaw_cos, yaw_sin),
{
    let mut increment_position = Vec4::new();
    if is_letter(key, 'w' as u8) {
        increment_position.0[2] = yaw_cos.mul(pitch_cos);
        increment_position.0[0] = yaw_sin.mul(pitch_cos);
        increment_position.0[1] = pitch_sin;
    } else if is_letter(key, 's' as u8) {
        increment_position.0[2] = yaw_cos.neg().mul(pitch_cos);
        increment_position.0[0] = yaw_sin.neg().mul(pitch_cos);
        increment_position.0[1] = pitch_sin.neg();
    } else if is_letter(key, 'd' as u8) {
        increment_position.0[2] = yaw_sin;
        increment_position.0[0] = yaw_cos.neg();
    } else if is_letter(key, 'a' as u8) {
        increment_position.0[2] = yaw_sin.neg();
        increment_position.0[0] = yaw_cos;
    }
    assert(increment_position =~= step_3d(key, pitch_cos, pitch_sin, yaw_cos, yaw_sin));
    increment_position
}

impl<S: Scalar> Camera<S> {
    pub closed spec fn position(self) -> Vec4<S> {
        self.position
    }

    pub closed spec fn pitch(self) -> S {
        self.pitch
    }

    pub closed spec fn yaw(self) -> S {
        self.yaw
    }

    pub closed spec fn roll(self) -> S {
        self.roll
    }

    pub closed spec fn zoom(self) -> S {
        self.zoom
    }

    /// The two cameras agree in everything but their position.
    pub open spec fn same_but_position(self, other: Self) -> bool {
        &&& self.pitch() == other.pitch()
        &&& self.yaw() == other.yaw()
        &&& self.roll() == other.roll()
        &&& self.zoom() == other.zoom()
    }

    /// The two cameras agree in everything.
    pub open spec fn same_as(self, other: Self) -> bool {
        self.position() == other.position() && self.same_but_position(other)
    }

    /// The camera is `before` after a drag of the mouse by `dy` in a flat
    /// scene: the zoom is multiplied by 1.05 to the power of `-dy / 2`, as
    /// the scalar's `powf` gives it, and nothing else has changed.
    pub open spec fn is_zoomed_from(self, before: Self, dy: S) -> bool where S: Real {
        &&& exists|increment: S|
            is_powf_of(fraction(105, 100), dy.negation().product(fraction(1, 2)), increment)
                && self.zoom() == #[trigger] before.zoom().product(increment)
        &&& self.position() == before.position()
        &&& self.pitch() == before.pitch()
        &&& self.yaw() == before.yaw()
        &&& self.roll() == before.roll()
    }

    /// The camera is `before` after a drag of the mouse by `(dx, dy)` in
    /// space: a tenth of `dy` is off the pitch, a tenth of `dx` is on the yaw,
    /// and nothing else has changed.
    pub open spec fn is_turned_from(self, before: Self, dx: S, dy: S) -> bool {
        &&& self.pitch() == before.pitch().sum(dy.product(fraction(-1i32, 10)))
        &&& self.yaw() == before.yaw().sum(dx.product(fraction(1, 10)))
        &&& self.position() == before.position()
        &&& self.roll() == before.roll()
        &&& self.zoom() == before.zoom()
    }

    /// The camera is `before` after a key in a flat scene: it has moved by
    /// a twentieth of the zoom in the direction of the key, and nothing else
    /// has changed.
    pub open spec fn is_stepped_2d_from(self, before: Self, key: &str) -> bool {
        &&& self.position() == before.position().plus(
            step_2d::<S>(key).scaled(before.zoom().product(fraction(1, 20))),
        )
        &&& self.same_but_position(before)
    }

    /// The camera is `before` after a key in space: it has moved by a tenth
    /// against the step of the key, for the cosines and sines of pitch and
    /// yaw as the scalar's `cos` and `sin` give them, and nothing else has
    /// changed.
    pub open spec fn is_stepped_3d_from(self, before: Self, key: &str) -> bool where S: Real {
        &&& exists|pitch_cos: S, pitch_sin: S, yaw_cos: S, yaw_sin: S|
            are_turns_of(before.pitch(), before.yaw(), pitch_cos, pitch_sin, yaw_cos, yaw_sin)
                && self.position() == before.position().plus(
                #[trigger] step_3d(key, pitch_cos, pitch_sin, yaw_cos, yaw_sin).scaled(
                    fraction(-1i32, 10),
                ),
            )
        &&& self.same_but_position(before)
    }

    /// A camera at the origin that looks straight ahead, with a zoom of 300.
    pub fn default() -> (camera: Self)
        ensures
            camera.position() == Vec4::<S>([zero(), zero(), zero(), one()]),
            camera.pitch() == zero::<S>(),
            camera.yaw() == zero::<S>(),
            camera.roll() == zero::<S>(),
            camera.zoom() == S::of_i32(300),
    {
        let zero = S::from_i32(0);
        Camera {
            position: Vec4([zero, zero, zero, S::from_i32(1)]),
            pitch: zero,
            yaw: zero,
            roll: zero,
            zoom: S::from_i32(300),
        }
    }

    pub fn new(position: Vec4<S>, pitch: S, yaw: S, roll: S, zoom: S) -> (camera: Self)
        ensures
            camera.position() == position,
            camera.pitch() == pitch,
            camera.yaw() == yaw,
            camera.roll() == roll,
            camera.zoom() == zoom,
    {
        Camera { position, pitch, yaw, roll, zoom }
    }

    pub fn get_zoom(&self) -> (zoom: S)
        ensures
            zoom == self.zoom(),
    {
        self.zoom
    }

    pub fn get_position(&self) -> (position: Vec4<S>)
        ensures
            position == self.position(),
    {
        self.position
    }

    pub fn get_pitch(&self) -> (pitch: S)
        ensures
            pitch == self.pitch(),
    {
        self.pitch
    }

    pub fn get_yaw(&self) -> (yaw: S)
        ensures
            yaw == self.yaw(),
    {
        self.yaw
    }

    /// Multiplies the zoom by `increment`.
    pub fn increment_zoom(&mut self, increment: S)
        ensures
            final(self).zoom() == old(self).zoom().product(increment),
            final(self).position() == old(self).position(),
            final(self).pitch() == old(self).pitch(),
            final(self).yaw() == old(self).yaw(),
            final(self).roll() == old(self).roll(),
    {
        self.zoom = self.zoom.mul(increment);
    }

    /// Adds `increment` to the pitch.
    fn increment_pitch(&mut self, increment: S)
        ensures
            final(self).pitch() == old(self).pitch().sum(increment),
            final(self).position() == old(self).position(),
            final(self).yaw() == old(self).yaw(),
            final(self).roll() == old(self).roll(),
            final(self).zoom() == old(self).zoom(),
    {
        self.pitch = self.pitch.add(increment);
    }

    /// Adds `increment` to the yaw.
    fn increment_yaw(&mut self, increment: S)
        ensures
            final(self).yaw() == old(self).yaw().sum(increment),
            final(self).position() == old(self).position(),
            final(self).pitch() == old(self).pitch(),
            final(self).roll() == old(self).roll(),
            final(self).zoom() == old(self).zoom(),
    {
        self.yaw = self.yaw.add(increment);
    }

    pub fn get_roll(&self) -> (roll: S)
        ensures
            roll == self.roll(),
    {
        self.roll
    }

    pub fn set_position(&mut self, position: Vec4<S>)
        ensures
            final(self).position() == position,
            final(self).same_but_position(*old(self)),
    {
        self.position = position;
    }

    /// Moves the camera by `step`.
    fn increment_position(&mut self, step: Vec4<S>)
        ensures
            final(self).position() == old(self).position().plus(step),
            final(self).same_but_position(*old(self)),
    {
        self.position = self.position + step;
    }

    /// A drag of the mouse in a flat scene zooms: the zoom is multiplied by
    /// 1.05 to the power of `-dy / 2`, as the scalar's `powf` gives it.
    pub fn mouse_move_2d(&mut self, _dx: S, dy: S) where S: Real
        ensures
            final(self).is_zoomed_from(*old(self), dy),
    {
        let increment = ratio::<S>(105, 100).powf(dy.neg().mul(ratio(1, 2)));
        self.increment_zoom(increment);
        assert(self.zoom() == old(self).zoom().product(increment));
    }

    /// A drag of the mouse in space turns the camera: a tenth of `dy` off the
    /// pitch, a tenth of `dx` onto the yaw.
    pub fn mouse_move_3d(&mut self, dx: S, dy: S)
        ensures
            final(self).is_turned_from(*old(self), dx, dy),
    {
        self.increment_pitch(dy.mul(ratio(-1, 10)));
        self.increment_yaw(dx.mul(ratio(1, 10)));
    }

    /// A key in a flat scene moves the camera by a twentieth of the zoom in
    /// the direction of the key.
    pub fn key_move_2d(&mut self, key: &str)
        ensures
            final(self).is_stepped_2d_from(*old(self), key),
    {
        let zero = S::from_i32(0);
        let one = S::from_i32(1);
        let minus_one = S::from_i32(-1);
        let increment_position: Vec4<S> = if is_letter(key, 'w' as u8) {
            Vec4([zero, one, zero, zero])
        } else if is_letter(key, 's' as u8) {
            Vec4([zero, minus_one, zero, zero])
        } else if is_letter(key, 'a' as u8) {
            Vec4([minus_one, zero, zero, zero])
        } else if is_letter(key, 'd' as u8) {
            Vec4([one, zero, zero, zero])
        } else {
            Vec4::new()
        };
        assert(increment_position =~= step_2d::<S>(key));
        self.increment_position(increment_position.mul(self.zoom.mul(ratio(1, 20))));
    }

    /// A key in space moves the camera by a tenth against the step of the
    /// key, for the cosines and sines of pitch and yaw as the scalar's `cos`
    /// and `sin` give them.
    pub fn key_move_3d(&mut self, key: &str) where S: Real
        ensures
            final(self).is_stepped_3d_from(*old(self), key),
    {
        let pitch_cos = to_radians(self.pitch).cos();
        let pitch_sin = to_radians(self.pitch).sin();
        let yaw_cos = to_radians(self.yaw).cos();
        let yaw_sin = to_radians(self.yaw).sin();
        let increment_position = key_step_3d(key, pitch_cos, pitch_sin, yaw_cos, yaw_sin);
        assert(are_turns_of(self.pitch(), self.yaw(), pitch_cos, pitch_sin, yaw_cos, yaw_sin));
        self.increment_position(increment_position.mul(ratio(-1, 10)));
        assert(self.position() == old(self).position().plus(
            step_3d(key, pitch_cos, pitch_sin, yaw_cos, yaw_sin).scaled(fraction(-1i32, 10)),
        ));
    }

    /// The view matrix of the camera. The roll is not applied.
    pub fn get_view_matrix(&self) -> (m: Mat4<S>) where S: Real
        ensures
            exists|pitch_cos: S, pitch_sin: S, yaw_cos: S, yaw_sin: S|
                are_turns_of(self.pitch(), self.yaw(), pitch_cos, pitch_sin, yaw_cos, yaw_sin) && m
                    == #[trigger] view(self.position(), pitch_cos, pitch_sin, yaw_cos, yaw_sin),
    {
        let m = view_matrix(&self.position, self.pitch, self.yaw, self.roll);
        proof {
            let (pitch_cos, pitch_sin, yaw_cos, yaw_sin) = choose|
                pitch_cos: S,
                pitch_sin: S,
                yaw_cos: S,
                yaw_sin: S,
            |
                are_turns_of(self.pitch, self.yaw, pitch_cos, pitch_sin, yaw_cos, yaw_sin) && m
                    == #[trigger] view(self.position, pitch_cos, pitch_sin, yaw_cos, yaw_sin);
            assert(m == view(self.position(), pitch_cos, pitch_sin, yaw_cos, yaw_sin));
            assert(are_turns_of(self.pitch(), self.yaw(), pitch_cos, pitch_sin, yaw_cos, yaw_sin));
        }
        m
    }
}

} // verus!
