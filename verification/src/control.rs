use vstd::prelude::*;

use crate::error::{NokhwaError, is_structure_error};

verus! {

/// The list of known camera controls to the library.
/// These can control the picture brightness, etc.
/// Note that not all backends/devices support all these.
#[derive(Copy, Clone, Debug, Hash, Ord, PartialOrd, Eq, PartialEq, Structural)]
pub enum KnownCameraControls {
    Brightness,
    Contrast,
    Hue,
    Saturation,
    Sharpness,
    Gamma,
    ColorEnable,
    WhiteBalance,
    BacklightComp,
    Gain,
    Pan,
    Tilt,
    Roll,
    Zoom,
    Exposure,
    Iris,
    Focus,
}

/// The position of a control in the list of [`KnownCameraControls`], from 0.
pub open spec fn control_rank(c: KnownCameraControls) -> nat {
    match c {
        KnownCameraControls::Brightness => 0,
        KnownCameraControls::Contrast => 1,
        KnownCameraControls::Hue => 2,
        KnownCameraControls::Saturation => 3,
        KnownCameraControls::Sharpness => 4,
        KnownCameraControls::Gamma => 5,
        KnownCameraControls::ColorEnable => 6,
        KnownCameraControls::WhiteBalance => 7,
        KnownCameraControls::BacklightComp => 8,
        KnownCameraControls::Gain => 9,
        KnownCameraControls::Pan => 10,
        KnownCameraControls::Tilt => 11,
        KnownCameraControls::Roll => 12,
        KnownCameraControls::Zoom => 13,
        KnownCameraControls::Exposure => 14,
        KnownCameraControls::Iris => 15,
        KnownCameraControls::Focus => 16,
    }
}

/// The name of a control.
pub open spec fn control_text(c: KnownCameraControls) -> Seq<char> {
    match c {
        KnownCameraControls::Brightness => "Brightness"@,
        KnownCameraControls::Contrast => "Contrast"@,
        KnownCameraControls::Hue => "Hue"@,
        KnownCameraControls::Saturation => "Saturation"@,
        KnownCameraControls::Sharpness => "Sharpness"@,
        KnownCameraControls::Gamma => "Gamma"@,
        KnownCameraControls::ColorEnable => "ColorEnable"@,
        KnownCameraControls::WhiteBalance => "WhiteBalance"@,
        KnownCameraControls::BacklightComp => "BacklightComp"@,
        KnownCameraControls::Gain => "Gain"@,
        KnownCameraControls::Pan => "Pan"@,
        KnownCameraControls::Tilt => "Tilt"@,
        KnownCameraControls::Roll => "Roll"@,
        KnownCameraControls::Zoom => "Zoom"@,
        KnownCameraControls::Exposure => "Exposure"@,
        KnownCameraControls::Iris => "Iris"@,
        KnownCameraControls::Focus => "Focus"@,
    }
}

impl KnownCameraControls {
    /// The position of this control in the list of known controls, from 0.
    pub fn rank(&self) -> (r: u8)
        ensures
            r == control_rank(*self),
    {
        match self {
            KnownCameraControls::Brightness => 0,
            KnownCameraControls::Contrast => 1,
            KnownCameraControls::Hue => 2,
            KnownCameraControls::Saturation => 3,
            KnownCameraControls::Sharpness => 4,
            KnownCameraControls::Gamma => 5,
            KnownCameraControls::ColorEnable => 6,
            KnownCameraControls::WhiteBalance => 7,
            KnownCameraControls::BacklightComp => 8,
            KnownCameraControls::Gain => 9,
            KnownCameraControls::Pan => 10,
            KnownCameraControls::Tilt => 11,
            KnownCameraControls::Roll => 12,
            KnownCameraControls::Zoom => 13,
            KnownCameraControls::Exposure => 14,
            KnownCameraControls::Iris => 15,
            KnownCameraControls::Focus => 16,
        }
    }

    /// The name of this control.
    pub fn to_string(&self) -> (s: String)
        ensures
            s@ == control_text(*self),
    {
        match self {
            KnownCameraControls::Brightness => "Brightness".to_string(),
            KnownCameraControls::Contrast => "Contrast".to_string(),
            KnownCameraControls::Hue => "Hue".to_string(),
            KnownCameraControls::Saturation => "Saturation".to_string(),
            KnownCameraControls::Sharpness => "Sharpness".to_string(),
            KnownCameraControls::Gamma => "Gamma".to_string(),
            KnownCameraControls::ColorEnable => "ColorEnable".to_string(),
            KnownCameraControls::WhiteBalance => "WhiteBalance".to_string(),
            KnownCameraControls::BacklightComp => "BacklightComp".to_string(),
            KnownCameraControls::Gain => "Gain".to_string(),
            KnownCameraControls::Pan => "Pan".to_string(),
            KnownCameraControls::Tilt => "Tilt".to_string(),
            KnownCameraControls::Roll => "Roll".to_string(),
            KnownCameraControls::Zoom => "Zoom".to_string(),
            KnownCameraControls::Exposure => "Exposure".to_string(),
            KnownCameraControls::Iris => "Iris".to_string(),
            KnownCameraControls::Focus => "Focus".to_string(),
        }
    }
}

/// This tells you weather a [`KnownCameraControls`] is automatically managed by the OS/Driver
/// or manually managed by you, the programmer.
#[derive(Copy, Clone, Debug, Hash, Ord, PartialOrd, Eq, PartialEq, Structural)]
pub enum KnownCameraControlFlag {
    Automatic,
    Manual,
}

/// The magnitude of `x`.
pub open spec fn abs(x: int) -> nat {
    if x < 0 {
        (-x) as nat
    } else {
        x as nat
    }
}

/// `value` is a multiple of `step` (for `step != 0`).
pub open spec fn is_multiple_of(value: int, step: int) -> bool {
    abs(value) % abs(step) == 0
}

/// A value that a control with these bounds and step accepts: between `min` and `max`
/// inclusive, and a multiple of `step`.
pub open spec fn value_accepted(min: i32, max: i32, value: i32, step: i32) -> bool {
    &&& min <= value <= max
    &&& is_multiple_of(value as int, step as int)
}

/// The message of the error for `value`, for a control with these bounds and step.
pub open spec fn control_error_message(min: i32, max: i32, value: i32) -> Seq<char> {
    if value > max {
        "Value too large"@
    } else if value < min {
        "Value too low"@
    } else {
        "Not aligned with step"@
    }
}

/// What a [`CameraControl`] holds.
pub struct CameraControlView {
    pub control: KnownCameraControls,
    pub min: i32,
    pub max: i32,
    pub value: i32,
    pub step: i32,
    pub default: i32,
    pub flag: KnownCameraControlFlag,
    pub active: bool,
}

impl CameraControlView {
    /// The value lies between the bounds, inclusive, and is a multiple of the step, which is
    /// not zero.
    pub open spec fn is_valid(self) -> bool {
        &&& self.step != 0
        &&& value_accepted(self.min, self.max, self.value, self.step)
    }
}

/// This struct tells you everything about a particular [`KnownCameraControls`].
/// However, you should never need to instantiate this struct, since its usually generated for
/// you by the camera backend.
/// The only time you should be modifying this struct is when you need to set a value and pass
/// it back to the camera.
#[derive(Copy, Clone, Debug, Hash, Eq, PartialEq)]
pub struct CameraControl {
    control: KnownCameraControls,
    min: i32,
    max: i32,
    value: i32,
    step: i32,
    default: i32,
    flag: KnownCameraControlFlag,
    active: bool,
}

impl View for CameraControl {
    type V = CameraControlView;

    closed spec fn view(&self) -> CameraControlView {
        CameraControlView {
            control: self.control,
            min: self.min,
            max: self.max,
            value: self.value,
            step: self.step,
            default: self.default,
            flag: self.flag,
            active: self.active,
        }
    }
}

/// Whether `value` is a multiple of `step`; `step` is not zero.
fn is_aligned(value: i32, step: i32) -> (r: bool)
    requires
        step != 0,
    ensures
        r == is_multiple_of(value as int, step as int),
{
    let value_abs: u64 = if value < 0 {
        (-(value as i64)) as u64
    } else {
        value as u64
    };
    let step_abs: u64 = if step < 0 {
        (-(step as i64)) as u64
    } else {
        step as u64
    };
    value_abs % step_abs == 0
}

/// The error for a value that a control refuses: too large, too low or not aligned with the
/// step.
fn control_error(min: i32, max: i32, value: i32) -> (e: NokhwaError)
    ensures
        is_structure_error(e, "CameraControl"@, control_error_message(min, max, value)),
{
    let message = if value > max {
        "Value too large".to_string()
    } else if value < min {
        "Value too low".to_string()
    } else {
        "Not aligned with step".to_string()
    };
    NokhwaError::StructureError { structure: "CameraControl".to_string(), error: message }
}

impl CameraControl {
    #[verifier::type_invariant]
    spec fn holds_valid_value(self) -> bool {
        self@.is_valid()
    }

    /// Creates a new [`CameraControl`]
    /// # Errors
    /// If the `value` is below `min`, above `max`, or is not divisible by `step`, this will error
    pub fn new(
        control: KnownCameraControls,
        min: i32,
        max: i32,
        value: i32,
        step: i32,
        default: i32,
        flag: KnownCameraControlFlag,
        active: bool,
    ) -> (res: Result<Self, NokhwaError>)
        requires
            min <= value <= max ==> step != 0,
        ensures
            res is Ok <==> value_accepted(min, max, value, step),
            res matches Ok(c) ==> c@ == (CameraControlView {
                control,
                min,
                max,
                value,
                step,
                default,
                flag,
                active,
            }) && c@.is_valid(),
            res matches Err(e) ==> is_structure_error(
                e,
                "CameraControl"@,
                control_error_message(min, max, value),
            ),
    {
        if value > max || value < min || !is_aligned(value, step) {
            return Err(control_error(min, max, value));
        }
        Ok(CameraControl { control, min, max, value, step, default, flag, active })
    }

    /// Gets the [`KnownCameraControls`] of this [`CameraControl`]
    pub fn control(&self) -> (c: KnownCameraControls)
        ensures
            c == self@.control,
    {
        self.control
    }

    /// Gets the minimum value of this [`CameraControl`]
    pub fn min(&self) -> (m: i32)
        ensures
            m == self@.min,
            self@.is_valid(),
    {
        proof {
            use_type_invariant(self);
        }
        self.min
    }

    /// Gets the maximum value of this [`CameraControl`]
    pub fn max(&self) -> (m: i32)
        ensures
            m == self@.max,
            self@.is_valid(),
    {
        proof {
            use_type_invariant(self);
        }
        self.max
    }

    /// Gets the current value of this [`CameraControl`]
    pub fn value(&self) -> (v: i32)
        ensures
            v == self@.value,
            self@.is_valid(),
    {
        proof {
            use_type_invariant(self);
        }
        self.value
    }

    /// Sets the value of this [`CameraControl`]
    /// # Errors
    /// If the `value` is below `min`, above `max`, or is not divisible by `step`, this will error
    pub fn set_value(&mut self, value: i32) -> (res: Result<(), NokhwaError>)
        ensures
            res is Ok <==> value_accepted(old(self)@.min, old(self)@.max, value, old(self)@.step),
            res is Ok ==> final(self)@ == (CameraControlView { value, ..old(self)@ }),
            res is Err ==> final(self)@ == old(self)@,
            res matches Err(e) ==> is_structure_error(
                e,
                "CameraControl"@,
                control_error_message(old(self)@.min, old(self)@.max, value),
            ),
            final(self)@.is_valid(),
    {
        proof {
            use_type_invariant(&*self);
        }
        if value > self.max || value < self.min || !is_aligned(value, self.step) {
            return Err(control_error(self.min, self.max, value));
        }
        self.value = value;
        Ok(())
    }

    /// Gets the step value of this [`CameraControl`]
    /// Note that `value` must be divisible by `step`
    pub fn step(&self) -> (s: i32)
        ensures
            s == self@.step,
            self@.is_valid(),
    {
        proof {
            use_type_invariant(self);
        }
        self.step
    }

    /// Gets the default value of this [`CameraControl`]
    pub fn default(&self) -> (d: i32)
        ensures
            d == self@.default,
    {
        self.default
    }

    /// Gets the [`KnownCameraControlFlag`] of this [`CameraControl`],
    /// telling you weather this control is automatically set or manually set.
    pub fn flag(&self) -> (f: KnownCameraControlFlag)
        ensures
            f == self@.flag,
    {
        self.flag
    }

    /// Gets `active` of this [`CameraControl`],
    /// telling you weather this control is currently active(in-use).
    pub fn active(&self) -> (a: bool)
        ensures
            a == self@.active,
    {
        self.active
    }
}

/// `value` counts as a multiple of `step` exactly when it is an integer multiple of it, whatever
/// the signs of the two; for a positive step, exactly when the remainder is zero.
pub proof fn lemma_multiple_is_divisibility(value: int, step: int)
    requires
        step != 0,
    ensures
        is_multiple_of(value, step) <==> exists|q: int| value == #[trigger] (q * step),
        step > 0 ==> (is_multiple_of(value, step) <==> value % step == 0),
{
    let a = abs(value) as int;
    let b = abs(step) as int;
    assert(b > 0);
    if is_multiple_of(value, step) {
        vstd::arithmetic::div_mod::lemma_fundamental_div_mod(a, b);
        let m = a / b;
        assert(a == b * m);
        let q = if (value < 0) == (step < 0) {
            m
        } else {
            -m
        };
        assert(value == q * step) by (nonlinear_arith)
            requires
                a == b * m,
                a == (if value < 0 { -value } else { value }),
                b == (if step < 0 { -step } else { step }),
                q == (if (value < 0) == (step < 0) { m } else { -m }),
        ;
    }
    if exists|q: int| value == #[trigger] (q * step) {
        let q = choose|q: int| value == #[trigger] (q * step);
        let n = if q < 0 {
            -q
        } else {
            q
        };
        assert(a == n * b) by (nonlinear_arith)
            requires
                value == q * step,
                a == (if value < 0 { -value } else { value }),
                b == (if step < 0 { -step } else { step }),
                n == (if q < 0 { -q } else { q }),
        ;
        vstd::arithmetic::div_mod::lemma_fundamental_div_mod_converse(a, b, n, 0);
    }
    if step > 0 {
        if value % step == 0 {
            vstd::arithmetic::div_mod::lemma_fundamental_div_mod(value, step);
            assert(value == (value / step) * step) by (nonlinear_arith)
                requires
                    value == step * (value / step) + value % step,
                    value % step == 0,
            ;
        }
        if exists|q: int| value == #[trigger] (q * step) {
            let q = choose|q: int| value == #[trigger] (q * step);
            vstd::arithmetic::div_mod::lemma_fundamental_div_mod_converse(value, step, q, 0);
        }
    }
}

/// A control accepts a value only when it lies between the bounds, inclusive, and is an
/// integer multiple of the step (for a positive step: its remainder by the step is zero).
pub proof fn lemma_accepted_value_divides(min: i32, max: i32, value: i32, step: i32)
    requires
        step != 0,
    ensures
        value_accepted(min, max, value, step) <==> (min <= value <= max && exists|q: int|
            value == #[trigger] (q * step)),
        step > 0 ==> (value_accepted(min, max, value, step) <==> (min <= value <= max && value
            % step == 0)),
{
    lemma_multiple_is_divisibility(value as int, step as int);
}

/// Controls are ranked in the order in which [`KnownCameraControls`] lists them: each control
/// ranks below the next one in the list.
pub proof fn lemma_controls_ranked_as_declared()
    ensures
        control_rank(KnownCameraControls::Brightness) < control_rank(KnownCameraControls::Contrast),
        control_rank(KnownCameraControls::Contrast) < control_rank(KnownCameraControls::Hue),
        control_rank(KnownCameraControls::Hue) < control_rank(KnownCameraControls::Saturation),
        control_rank(KnownCameraControls::Saturation) < control_rank(KnownCameraControls::Sharpness),
        control_rank(KnownCameraControls::Sharpness) < control_rank(KnownCameraControls::Gamma),
        control_rank(KnownCameraControls::Gamma) < control_rank(KnownCameraControls::ColorEnable),
        control_rank(KnownCameraControls::ColorEnable) < control_rank(
            KnownCameraControls::WhiteBalance,
        ),
        control_rank(KnownCameraControls::WhiteBalance) < control_rank(
            KnownCameraControls::BacklightComp,
        ),
        control_rank(KnownCameraControls::BacklightComp) < control_rank(KnownCameraControls::Gain),
        control_rank(KnownCameraControls::Gain) < control_rank(KnownCameraControls::Pan),
        control_rank(KnownCameraControls::Pan) < control_rank(KnownCameraControls::Tilt),
        control_rank(KnownCameraControls::Tilt) < control_rank(KnownCameraControls::Roll),
        control_rank(KnownCameraControls::Roll) < control_rank(KnownCameraControls::Zoom),
        control_rank(KnownCameraControls::Zoom) < control_rank(KnownCameraControls::Exposure),
        control_rank(KnownCameraControls::Exposure) < control_rank(KnownCameraControls::Iris),
        control_rank(KnownCameraControls::Iris) < control_rank(KnownCameraControls::Focus),
        forall|a: KnownCameraControls, b: KnownCameraControls|
            #[trigger] control_rank(a) == #[trigger] control_rank(b) ==> a == b,
{
}

} // verus!
