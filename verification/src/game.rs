//! The playing-phase logic: the scene built on entry and the per-frame
//! animator that rotates and bounces the tagged entity.

use vstd::prelude::*;

use crate::loading::WorldProps;

verus! {

/// A quarter turn (pi / 2) in microradians: the yaw advanced per second.
pub const QUARTER_TURN_MICRORAD: u64 = 1_570_796;

/// A full turn in microradians times one million: the modulus for the
/// accumulated yaw, which is kept in picoradians.
pub const FULL_TURN_PICORAD: u64 = 4 * QUARTER_TURN_MICRORAD * 1_000_000;

/// The largest frame delta the animator accepts, in microseconds
/// (a thousand seconds): keeps the yaw arithmetic inside `u64`.
pub const MAX_FRAME_DELTA_US: u64 = 1_000_000_000;

/// The bounce amplitude in thousandths of a unit.
pub const BOUNCE_AMPLITUDE_MILLI: i64 = 150;

/// The bounce angular speed in radians per second.
pub const BOUNCE_SPEED_RAD_PER_S: u64 = 3;

/// Marker for the one animated entity: carries the resting height it
/// bounces around, in micro-units.
#[derive(Clone, Copy, PartialEq, Eq, Structural, Debug)]
pub struct Rotating {
    /// The resting height of the entity, in micro-units.
    pub initial_height: i64,
}

/// An entity's pose: its position in micro-units and its accumulated yaw
/// in picoradians, kept below one full turn.
#[derive(Clone, Copy, PartialEq, Eq, Structural, Debug)]
pub struct Transform {
    /// Yaw around the vertical axis, in picoradians, within one turn.
    pub yaw_picorad: u64,
    /// Position along the first horizontal axis, in micro-units.
    pub x: i64,
    /// Height, in micro-units.
    pub y: i64,
    /// Position along the second horizontal axis, in micro-units.
    pub z: i64,
}

impl Transform {
    /// A well-formed pose keeps its yaw below one full turn.
    pub open spec fn wf(self) -> bool {
        self.yaw_picorad < FULL_TURN_PICORAD
    }

    /// A pose at the given position with no yaw.
    pub fn from_xyz(x: i64, y: i64, z: i64) -> (r: Transform)
        ensures
            r == (Transform { yaw_picorad: 0, x, y, z }),
            r.wf(),
    {
        Transform { yaw_picorad: 0, x, y, z }
    }
}

/// The yaw after a frame of `delta_us` microseconds: it advances by a
/// quarter turn per second and wraps at a full turn.
pub open spec fn spec_yaw_step(yaw: u64, delta_us: u64) -> int {
    (yaw + delta_us * QUARTER_TURN_MICRORAD) % (FULL_TURN_PICORAD as int)
}

/// The vertical offset for a scaled sine value: the amplitude of 0.15
/// units times the sine of the bounce phase, exact in micro-units when
/// the sine is given in thousandths.
pub open spec fn spec_bounce_offset(sin_milli: int) -> int {
    BOUNCE_AMPLITUDE_MILLI * sin_milli
}

/// The phase of the bounce wave at elapsed time `elapsed_us`, in
/// microradians: the angular speed of 3 radians per second makes it
/// exactly three times the elapsed microseconds.
pub fn bounce_phase_microrad(elapsed_us: u64) -> (r: u64)
    requires
        elapsed_us <= u64::MAX / BOUNCE_SPEED_RAD_PER_S,
    ensures
        r == BOUNCE_SPEED_RAD_PER_S * elapsed_us,
{
    BOUNCE_SPEED_RAD_PER_S * elapsed_us
}

/// The height of the entity for a scaled sine value of the bounce phase:
/// the resting height plus the bounce offset, exactly.
pub fn vertical_position(initial_height: i64, sin_milli: i64) -> (r: i64)
    requires
        -1000 <= sin_milli <= 1000,
        i64::MIN <= initial_height + BOUNCE_AMPLITUDE_MILLI * sin_milli <= i64::MAX,
    ensures
        r == initial_height + spec_bounce_offset(sin_milli as int),
{
    initial_height + BOUNCE_AMPLITUDE_MILLI * sin_milli
}

/// At elapsed time zero the bounce phase and its sine are zero, so the
/// height is exactly the resting height.
pub proof fn lemma_at_start_resting(initial_height: int)
    ensures
        initial_height + spec_bounce_offset(0) == initial_height,
{
}

/// Whether a resting height leaves the bounce inside the machine range,
/// whatever the sine value.
pub open spec fn height_in_range(initial_height: i64) -> bool {
    &&& i64::MIN + 1000 * BOUNCE_AMPLITUDE_MILLI <= initial_height
    &&& initial_height <= i64::MAX - 1000 * BOUNCE_AMPLITUDE_MILLI
}

/// The pose after one frame of the animator: the yaw advanced by the
/// frame delta, the height set from the elapsed-time sine, the rest of
/// the position untouched.
pub open spec fn spec_animate(t: Transform, rotating: Rotating, delta_us: u64, sin_milli: int) -> Transform {
    Transform {
        yaw_picorad: spec_yaw_step(t.yaw_picorad, delta_us) as u64,
        x: t.x,
        y: (rotating.initial_height + spec_bounce_offset(sin_milli)) as i64,
        z: t.z,
    }
}

/// One frame of the animator for one tagged entity: the yaw advances by
/// the frame delta times the quarter-turn rate, and the height is set to
/// the resting height plus the bounce offset — a value that does not
/// depend on the frame delta. The horizontal position is unchanged.
pub fn animate_entity(transform: &mut Transform, rotating: &Rotating, delta_us: u64, sin_milli: i64)
    requires
        old(transform).wf(),
        delta_us <= MAX_FRAME_DELTA_US,
        -1000 <= sin_milli <= 1000,
        height_in_range(rotating.initial_height),
    ensures
        *final(transform) == spec_animate(*old(transform), *rotating, delta_us, sin_milli as int),
        final(transform).wf(),
{
    let delta_picorad: u64 = delta_us * QUARTER_TURN_MICRORAD;
    transform.yaw_picorad = (transform.yaw_picorad + delta_picorad) % FULL_TURN_PICORAD;
    transform.y = vertical_position(rotating.initial_height, sin_milli);
}

/// One frame of the animator over every tagged entity, each paired with
/// its marker: the query-and-mutate loop of the playing phase.
pub fn animate_object(entities: &mut Vec<(Transform, Rotating)>, delta_us: u64, sin_milli: i64)
    requires
        delta_us <= MAX_FRAME_DELTA_US,
        -1000 <= sin_milli <= 1000,
        forall|i: int| 0 <= i < old(entities)@.len() ==> (#[trigger] old(entities)@[i]).0.wf(),
        forall|i: int| 0 <= i < old(entities)@.len() ==> height_in_range(
            (#[trigger] old(entities)@[i]).1.initial_height,
        ),
    ensures
        final(entities)@.len() == old(entities)@.len(),
        forall|i: int| 0 <= i < old(entities)@.len() ==> #[trigger] final(entities)@[i] == (
            spec_animate(old(entities)@[i].0, old(entities)@[i].1, delta_us, sin_milli as int),
            old(entities)@[i].1,
        ),
{
    let n: usize = entities.len();
    let mut k: usize = 0;
    while k < n
        invariant
            n == old(entities)@.len(),
            k <= n,
            entities@.len() == n,
            delta_us <= MAX_FRAME_DELTA_US,
            -1000 <= sin_milli <= 1000,
            forall|i: int| 0 <= i < n ==> (#[trigger] old(entities)@[i]).0.wf(),
            forall|i: int| 0 <= i < n ==> height_in_range(
                (#[trigger] old(entities)@[i]).1.initial_height,
            ),
            forall|i: int| k <= i < n ==> #[trigger] entities@[i] == old(entities)@[i],
            forall|i: int| 0 <= i < k ==> #[trigger] entities@[i] == (
                spec_animate(old(entities)@[i].0, old(entities)@[i].1, delta_us, sin_milli as int),
                old(entities)@[i].1,
            ),
        decreases n - k,
    {
        let pair = entities[k];
        let mut transform = pair.0;
        animate_entity(&mut transform, &pair.1, delta_us, sin_milli);
        entities[k] = (transform, pair.1);
        k = k + 1;
    }
}

/// An RGB colour, channels in thousandths of full intensity.
#[derive(Clone, Copy, PartialEq, Eq, Structural, Debug)]
pub struct Rgb {
    /// Red channel, in thousandths.
    pub red: u32,
    /// Green channel, in thousandths.
    pub green: u32,
    /// Blue channel, in thousandths.
    pub blue: u32,
}

/// A point in the scene, coordinates in micro-units.
#[derive(Clone, Copy, PartialEq, Eq, Structural, Debug)]
pub struct Vec3 {
    /// First horizontal coordinate, in micro-units.
    pub x: i64,
    /// Vertical coordinate, in micro-units.
    pub y: i64,
    /// Second horizontal coordinate, in micro-units.
    pub z: i64,
}

/// An eighth of a turn (45 degrees) in microradians.
pub const EIGHTH_TURN_MICRORAD: i64 = 785_398;

/// The directional light spawned on entering the playing phase: a
/// slightly warm colour, a fixed intensity, shadows on, tilted by the
/// given Euler angles, with two shadow-cascade bounds.
#[derive(Clone, Copy, PartialEq, Eq, Structural, Debug)]
pub struct DirectionalLightSpec {
    /// Light colour, slightly warm.
    pub color: Rgb,
    /// Illuminance in lux.
    pub illuminance: u64,
    /// Whether the light casts shadows.
    pub shadows_enabled: bool,
    /// Rotation about the first horizontal axis, in microradians.
    pub pitch_microrad: i64,
    /// Rotation about the vertical axis, in microradians.
    pub yaw_microrad: i64,
    /// Rotation about the depth axis, in microradians.
    pub roll_microrad: i64,
    /// Far bound of the first shadow cascade, in micro-units.
    pub first_cascade_far_bound: i64,
    /// Largest distance shadows are drawn at, in micro-units.
    pub maximum_distance: i64,
}

/// The process-wide ambient light set on entering the playing phase.
#[derive(Clone, Copy, PartialEq, Eq, Structural, Debug)]
pub struct AmbientLightSpec {
    /// Ambient colour.
    pub color: Rgb,
    /// Brightness, in thousandths.
    pub brightness: u32,
}

/// The flat ground plane: a dark matte material slightly below origin.
#[derive(Clone, Copy, PartialEq, Eq, Structural, Debug)]
pub struct GroundSpec {
    /// Base colour of the material.
    pub base_color: Rgb,
    /// Perceptual roughness of the material, in thousandths.
    pub perceptual_roughness: u32,
    /// Metalness of the material, in thousandths.
    pub metallic: u32,
    /// Reflectance of the material, in thousandths.
    pub reflectance: u32,
    /// Centre of the plane, slightly below origin.
    pub position: Vec3,
}

/// The loaded scene instance spawned at the origin and tagged as the one
/// rotating entity.
#[derive(Clone, Copy, PartialEq, Eq, Structural, Debug)]
pub struct RotatingCrateSpec {
    /// Identifier of the scene asset to instance.
    pub scene_asset: u64,
    /// Where the instance is placed.
    pub position: Vec3,
    /// The animation marker, with the resting height.
    pub rotating: Rotating,
}

/// The camera: at a fixed offset, looking at the origin.
#[derive(Clone, Copy, PartialEq, Eq, Structural, Debug)]
pub struct CameraSpec {
    /// Where the camera stands.
    pub position: Vec3,
    /// The point the camera looks at.
    pub look_at: Vec3,
}

/// Everything the playing phase spawns on entry, with every numeric
/// property fixed.
#[derive(Clone, Copy, PartialEq, Eq, Structural, Debug)]
pub struct SceneSpec {
    /// The one directional light.
    pub directional_light: DirectionalLightSpec,
    /// The process-wide ambient light.
    pub ambient_light: AmbientLightSpec,
    /// The ground plane.
    pub ground: GroundSpec,
    /// The loaded scene instance, tagged rotating.
    pub rotating_crate: RotatingCrateSpec,
    /// The camera.
    pub camera: CameraSpec,
}

/// The scene built on entering the playing phase, with each fixed value
/// the demo uses: a warm directional light tilted down by an eighth turn
/// and across by another, a dim grey ambient light, a dark matte ground
/// plane half a unit below origin, the loaded crate at the origin with a
/// resting height of half a unit, and a camera looking at the origin.
pub open spec fn spec_create_scene(props: WorldProps) -> SceneSpec {
    SceneSpec {
        directional_light: DirectionalLightSpec {
            color: Rgb { red: 1000, green: 950, blue: 850 },
            illuminance: 50_000,
            shadows_enabled: true,
            pitch_microrad: (-EIGHTH_TURN_MICRORAD) as i64,
            yaw_microrad: EIGHTH_TURN_MICRORAD,
            roll_microrad: 0,
            first_cascade_far_bound: 4_000_000,
            maximum_distance: 10_000_000,
        },
        ambient_light: AmbientLightSpec { color: Rgb { red: 100, green: 100, blue: 100 }, brightness: 300 },
        ground: GroundSpec {
            base_color: Rgb { red: 200, green: 200, blue: 200 },
            perceptual_roughness: 900,
            metallic: 0,
            reflectance: 200,
            position: Vec3 { x: 0, y: (-500_000) as i64, z: 0 },
        },
        rotating_crate: RotatingCrateSpec {
            scene_asset: props.wood_crate,
            position: Vec3 { x: 0, y: 0, z: 0 },
            rotating: Rotating { initial_height: 500_000 },
        },
        camera: CameraSpec {
            position: Vec3 { x: (-2_000_000) as i64, y: 2_500_000, z: 5_000_000 },
            look_at: Vec3 { x: 0, y: 0, z: 0 },
        },
    }
}

/// Builds the scene for the playing phase: returns the description of
/// everything to spawn, pinned to the fixed values of the demo, with the
/// loaded asset of `props` as the rotating crate.
pub fn create_scene(props: &WorldProps) -> (r: SceneSpec)
    ensures
        r == spec_create_scene(*props),
        r.rotating_crate.scene_asset == props.wood_crate,
        height_in_range(r.rotating_crate.rotating.initial_height),
{
    SceneSpec {
        directional_light: DirectionalLightSpec {
            color: Rgb { red: 1000, green: 950, blue: 850 },
            illuminance: 50_000,
            shadows_enabled: true,
            pitch_microrad: -EIGHTH_TURN_MICRORAD,
            yaw_microrad: EIGHTH_TURN_MICRORAD,
            roll_microrad: 0,
            first_cascade_far_bound: 4_000_000,
            maximum_distance: 10_000_000,
        },
        ambient_light: AmbientLightSpec { color: Rgb { red: 100, green: 100, blue: 100 }, brightness: 300 },
        ground: GroundSpec {
            base_color: Rgb { red: 200, green: 200, blue: 200 },
            perceptual_roughness: 900,
            metallic: 0,
            reflectance: 200,
            position: Vec3 { x: 0, y: -500_000, z: 0 },
        },
        rotating_crate: RotatingCrateSpec {
            scene_asset: props.wood_crate,
            position: Vec3 { x: 0, y: 0, z: 0 },
            rotating: Rotating { initial_height: 500_000 },
        },
        camera: CameraSpec {
            position: Vec3 { x: -2_000_000, y: 2_500_000, z: 5_000_000 },
            look_at: Vec3 { x: 0, y: 0, z: 0 },
        },
    }
}

/// The yaw advance is exactly the frame delta times the quarter-turn
/// rate whenever it stays within one turn.
pub proof fn lemma_yaw_advance(yaw: u64, delta_us: u64)
    requires
        yaw + delta_us * QUARTER_TURN_MICRORAD < FULL_TURN_PICORAD,
    ensures
        spec_yaw_step(yaw, delta_us) == yaw + delta_us * QUARTER_TURN_MICRORAD,
{
    vstd::arithmetic::div_mod::lemma_small_mod(
        (yaw + delta_us * QUARTER_TURN_MICRORAD) as nat,
        FULL_TURN_PICORAD as nat,
    );
}

/// The height after a frame depends on the elapsed-time sine alone:
/// two frames from the same pose with the same sine value land the
/// entity at the same height, whatever their deltas.
pub proof fn lemma_height_independent_of_delta(
    t: Transform,
    rotating: Rotating,
    d1: u64,
    d2: u64,
    sin_milli: int,
)
    ensures
        spec_animate(t, rotating, d1, sin_milli).y == spec_animate(t, rotating, d2, sin_milli).y,
{
}

} // verus!
