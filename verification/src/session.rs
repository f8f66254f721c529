//! The frame loop's decisions, as one state machine the host drives:
//! each frame the host reports what it observed (the progress counter,
//! the load-complete signal, the frame timing and the sine of the bounce
//! phase), and the game decides the phase, the diagnostics and the scene.

use vstd::prelude::*;

use crate::game::Rotating;
use crate::game::SceneSpec;
use crate::game::Transform;
use crate::game::MAX_FRAME_DELTA_US;
use crate::game::animate_entity;
use crate::game::create_scene;
use crate::game::spec_animate;
use crate::game::spec_create_scene;
use crate::loading::Progress;
use crate::loading::ProgressRecord;
use crate::loading::ProgressReporter;
use crate::loading::WorldProps;
use crate::world::GameState;
use crate::world::advance;
use crate::world::spec_advance;

verus! {

/// The whole demo between frames: the phase, the loading diagnostics,
/// the loaded-asset handle, and — while playing — the spawned scene and
/// the current pose of the rotating crate.
#[derive(Clone, Copy, PartialEq, Eq, Structural, Debug)]
pub struct Game {
    /// The active phase.
    pub state: GameState,
    /// The loading diagnostics.
    pub reporter: ProgressReporter,
    /// The handle collection for the loaded scene asset.
    pub props: WorldProps,
    /// The scene spawned on entering the playing phase.
    pub scene: Option<SceneSpec>,
    /// The rotating crate's current pose, animated every playing frame.
    pub crate_pose: Option<Transform>,
}

impl Game {
    /// The game is well formed when the scene and the crate's pose exist
    /// exactly while playing, the scene is the one the builder makes for
    /// its asset handle, the pose keeps its yaw within a turn, and the
    /// menu phase is never active.
    pub open spec fn wf(self) -> bool {
        &&& self.state == GameState::Playing <==> self.scene is Some
        &&& self.scene is Some <==> self.crate_pose is Some
        &&& self.scene is Some ==> self.scene.unwrap() == spec_create_scene(self.props)
        &&& self.crate_pose is Some ==> self.crate_pose.unwrap().wf()
        &&& self.state != GameState::Menu
    }

    /// A fresh game: the loading phase, nothing reported and nothing
    /// spawned yet.
    pub fn new(props: WorldProps) -> (g: Game)
        ensures
            g.wf(),
            g.state == GameState::Loading,
            g.reporter.last_done == 0,
            g.props == props,
            g.scene is None,
            g.crate_pose is None,
    {
        Game {
            state: GameState::Loading,
            reporter: ProgressReporter::new(),
            props,
            scene: None,
            crate_pose: None,
        }
    }

    /// One frame of the loading phase. The reporter observes the counter
    /// and emits at most one record, only when `done` strictly grew since
    /// the last one. Then the phase advances: exactly when the external
    /// load-complete signal arrived, the game enters the playing phase
    /// and builds the scene, placing the crate at the origin with no yaw.
    pub fn loading_frame(
        &mut self,
        progress: Option<Progress>,
        frame_count: u64,
        load_complete: bool,
    ) -> (r: Option<ProgressRecord>)
        requires
            old(self).wf(),
            old(self).state == GameState::Loading,
        ensures
            final(self).wf(),
            final(self).state == spec_advance(GameState::Loading, load_complete),
            final(self).props == old(self).props,
            r is Some <==> old(self).reporter.spec_emits(progress),
            old(self).reporter.spec_emits(progress) ==> {
                &&& r == Some(ProgressRecord { frame: frame_count, progress: progress.unwrap() })
                &&& final(self).reporter.last_done == progress.unwrap().done
            },
            !old(self).reporter.spec_emits(progress) ==> final(self).reporter == old(self).reporter,
            load_complete ==> {
                &&& final(self).scene == Some(spec_create_scene(old(self).props))
                &&& final(self).crate_pose == Some(Transform { yaw_picorad: 0, x: 0, y: 0, z: 0 })
            },
            !load_complete ==> final(self).scene is None && final(self).crate_pose is None,
    {
        let record = self.reporter.observe(progress, frame_count);
        self.state = advance(GameState::Loading, load_complete);
        if load_complete {
            self.scene = Some(create_scene(&self.props));
            self.crate_pose = Some(Transform::from_xyz(0, 0, 0));
        }
        record
    }

    /// One frame of the playing phase: the crate's yaw advances by the
    /// frame delta at a quarter turn per second, and its height is set
    /// from the given sine of the bounce phase; nothing else changes.
    pub fn playing_frame(&mut self, delta_us: u64, sin_milli: i64)
        requires
            old(self).wf(),
            old(self).state == GameState::Playing,
            delta_us <= MAX_FRAME_DELTA_US,
            -1000 <= sin_milli <= 1000,
        ensures
            final(self).wf(),
            final(self).state == GameState::Playing,
            final(self).reporter == old(self).reporter,
            final(self).props == old(self).props,
            final(self).scene == old(self).scene,
            final(self).crate_pose == Some(
                spec_animate(
                    old(self).crate_pose.unwrap(),
                    spec_create_scene(old(self).props).rotating_crate.rotating,
                    delta_us,
                    sin_milli as int,
                ),
            ),
    {
        let rotating = match &self.scene {
            Some(scene) => scene.rotating_crate.rotating,
            None => Rotating { initial_height: 0 },
        };
        let mut pose = match &self.crate_pose {
            Some(p) => *p,
            None => Transform::from_xyz(0, 0, 0),
        };
        animate_entity(&mut pose, &rotating, delta_us, sin_milli);
        self.crate_pose = Some(pose);
    }
}

} // verus!
