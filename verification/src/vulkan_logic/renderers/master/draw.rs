use vstd::prelude::*;

verus! {

/// Which parts of a frame get recorded.
#[derive(Clone, Copy, Debug, PartialEq, Eq, Structural)]
pub struct FramePasses {
    /// Upload this frame's vertices, indices and lights.
    pub upload_scene: bool,
    /// Render the shadow map.
    pub shadow_pass: bool,
    /// Draw sky, clouds, rivers, fire, smoke and weather.
    pub environment: bool,
    /// Draw the scene's meshes.
    pub scene_geometry: bool,
    /// Upload new UI textures.
    pub upload_ui_textures: bool,
    /// Free released UI textures.
    pub free_ui_textures: bool,
    /// Draw the UI on top.
    pub ui: bool,
}

/// The world is only rendered while the game is playing, meshes (and their
/// shadows) only when there are draw calls; the UI is always drawn when it
/// has primitives, and texture uploads and frees happen when there are any.
pub open spec fn frame_passes_spec(
    is_playing: bool,
    draw_calls: nat,
    ui_primitives: nat,
    textures_set: nat,
    textures_freed: nat,
) -> FramePasses {
    FramePasses {
        upload_scene: is_playing,
        shadow_pass: is_playing && draw_calls > 0,
        environment: is_playing,
        scene_geometry: is_playing && draw_calls > 0,
        upload_ui_textures: textures_set > 0,
        free_ui_textures: textures_freed > 0,
        ui: ui_primitives > 0,
    }
}

/// Decides which passes this frame records.
pub fn frame_passes(
    is_playing: bool,
    draw_calls: usize,
    ui_primitives: usize,
    textures_set: usize,
    textures_freed: usize,
) -> (r: FramePasses)
    ensures
        r == frame_passes_spec(is_playing, draw_calls as nat, ui_primitives as nat, textures_set as nat, textures_freed as nat),
{
    FramePasses {
        upload_scene: is_playing,
        shadow_pass: is_playing && draw_calls > 0,
        environment: is_playing,
        scene_geometry: is_playing && draw_calls > 0,
        upload_ui_textures: textures_set > 0,
        free_ui_textures: textures_freed > 0,
        ui: ui_primitives > 0,
    }
}

/// A shadow map is rendered exactly when meshes are drawn, and outside play
/// only the UI can be drawn.
pub proof fn lemma_passes_consistent(
    is_playing: bool,
    draw_calls: nat,
    ui_primitives: nat,
    textures_set: nat,
    textures_freed: nat,
)
    ensures
        ({
            let p = frame_passes_spec(is_playing, draw_calls, ui_primitives, textures_set, textures_freed);
            &&& p.shadow_pass == p.scene_geometry
            &&& p.scene_geometry ==> p.upload_scene && p.environment
            &&& !is_playing ==> !p.upload_scene && !p.shadow_pass && !p.environment && !p.scene_geometry
        }),
{
}

/// One drawing step of the main render pass.
#[derive(Clone, Copy, Debug, PartialEq, Eq, Structural)]
pub enum MainPassStep {
    /// The procedural sky backdrop.
    Sky,
    /// The volumetric clouds.
    Clouds,
    /// The scene's meshes.
    Meshes,
    /// The rivers.
    Rivers,
    /// The fire particles.
    Fire,
    /// The smoke particles.
    Smoke,
    /// The weather particles.
    Weather,
    /// The user interface.
    Ui,
}

/// The steps of the main pass, in recording order: while playing, the sky,
/// then the clouds, then the meshes (when there are draw calls), then rivers,
/// fire, smoke and weather; and last the UI, when it has primitives. Later
/// steps are drawn over earlier ones.
pub open spec fn main_pass_plan_spec(is_playing: bool, draw_calls: nat, ui_primitives: nat) -> Seq<MainPassStep> {
    let world = if is_playing {
        seq![MainPassStep::Sky, MainPassStep::Clouds]
            + (if draw_calls > 0 { seq![MainPassStep::Meshes] } else { Seq::empty() })
            + seq![MainPassStep::Rivers, MainPassStep::Fire, MainPassStep::Smoke, MainPassStep::Weather]
    } else {
        Seq::empty()
    };
    world + (if ui_primitives > 0 { seq![MainPassStep::Ui] } else { Seq::empty() })
}

/// The order in which the main pass records its drawing steps.
pub fn main_pass_plan(is_playing: bool, draw_calls: usize, ui_primitives: usize) -> (r: Vec<MainPassStep>)
    ensures
        r@ == main_pass_plan_spec(is_playing, draw_calls as nat, ui_primitives as nat),
{
    let mut steps: Vec<MainPassStep> = Vec::new();
    if is_playing {
        steps.push(MainPassStep::Sky);
        steps.push(MainPassStep::Clouds);
        if draw_calls > 0 {
            steps.push(MainPassStep::Meshes);
        }
        steps.push(MainPassStep::Rivers);
        steps.push(MainPassStep::Fire);
        steps.push(MainPassStep::Smoke);
        steps.push(MainPassStep::Weather);
    }
    if ui_primitives > 0 {
        steps.push(MainPassStep::Ui);
    }
    proof {
        let world = if is_playing {
            seq![MainPassStep::Sky, MainPassStep::Clouds]
                + (if draw_calls > 0 { seq![MainPassStep::Meshes] } else { Seq::empty() })
                + seq![MainPassStep::Rivers, MainPassStep::Fire, MainPassStep::Smoke, MainPassStep::Weather]
        } else {
            Seq::<MainPassStep>::empty()
        };
        assert(steps@ =~= world + (if ui_primitives > 0 { seq![MainPassStep::Ui] } else { Seq::empty() }));
    }
    steps
}

/// The layering of the main pass: the sky comes first and the UI last
/// whenever they are drawn, every step is drawn at most once, the meshes are
/// drawn after the clouds and before all the effects, and the main pass draws
/// meshes exactly when `frame_passes` selects them (and the shadow map).
pub proof fn lemma_main_pass_layering(is_playing: bool, draw_calls: nat, ui_primitives: nat)
    ensures
        ({
            let p = main_pass_plan_spec(is_playing, draw_calls, ui_primitives);
            &&& is_playing ==> p[0] == MainPassStep::Sky
            &&& ui_primitives > 0 ==> p.last() == MainPassStep::Ui
            &&& forall|i: int, j: int| 0 <= i < j < p.len() ==> p[i] != p[j]
            &&& forall|i: int, j: int| 0 <= i < p.len() && 0 <= j < p.len() && p[i] == MainPassStep::Meshes ==> (
                (p[j] == MainPassStep::Sky || p[j] == MainPassStep::Clouds) ==> j < i)
            &&& forall|i: int, j: int| 0 <= i < p.len() && 0 <= j < p.len() && p[i] == MainPassStep::Meshes ==> (
                (p[j] == MainPassStep::Rivers || p[j] == MainPassStep::Fire || p[j] == MainPassStep::Smoke
                    || p[j] == MainPassStep::Weather || p[j] == MainPassStep::Ui) ==> i < j)
            &&& p.contains(MainPassStep::Meshes)
                == frame_passes_spec(is_playing, draw_calls, ui_primitives, 0, 0).scene_geometry
        }),
{
    let p = main_pass_plan_spec(is_playing, draw_calls, ui_primitives);
    let s = MainPassStep::Sky;
    let c = MainPassStep::Clouds;
    let m = MainPassStep::Meshes;
    let rv = MainPassStep::Rivers;
    let f = MainPassStep::Fire;
    let sm = MainPassStep::Smoke;
    let w = MainPassStep::Weather;
    let u = MainPassStep::Ui;
    if is_playing {
        if draw_calls > 0 {
            if ui_primitives > 0 {
                assert(p =~= seq![s, c, m, rv, f, sm, w, u]);
            } else {
                assert(p =~= seq![s, c, m, rv, f, sm, w]);
            }
            assert(p[2] == m);
        } else {
            if ui_primitives > 0 {
                assert(p =~= seq![s, c, rv, f, sm, w, u]);
            } else {
                assert(p =~= seq![s, c, rv, f, sm, w]);
            }
        }
    } else {
        if ui_primitives > 0 {
            assert(p =~= seq![u]);
        } else {
            assert(p =~= Seq::<MainPassStep>::empty());
        }
    }
}


/// Which passes a frame records, stated on the inputs themselves: the world
/// (upload, sky, clouds, rivers and particles) whenever the game is playing,
/// whatever the number of meshes; the meshes and their shadow map whenever
/// playing with at least one draw call; texture uploads, frees and the UI
/// whenever there is at least one of each.
pub proof fn lemma_frame_passes_exact(
    is_playing: bool,
    draw_calls: nat,
    ui_primitives: nat,
    textures_set: nat,
    textures_freed: nat,
)
    ensures
        ({
            let p = frame_passes_spec(is_playing, draw_calls, ui_primitives, textures_set, textures_freed);
            &&& p.environment == is_playing
            &&& p.upload_scene == is_playing
            &&& p.scene_geometry == (is_playing && draw_calls >= 1)
            &&& p.shadow_pass == (is_playing && draw_calls >= 1)
            &&& p.ui == (ui_primitives >= 1)
            &&& p.upload_ui_textures == (textures_set >= 1)
            &&& p.free_ui_textures == (textures_freed >= 1)
            &&& p.environment == main_pass_plan_spec(is_playing, draw_calls, ui_primitives).contains(MainPassStep::Sky)
        }),
{
    lemma_main_pass_contents(is_playing, draw_calls, ui_primitives);
}

/// What the main pass draws, stated on the inputs: while playing the sky,
/// clouds, rivers, fire, smoke and weather always, and the meshes exactly when
/// there is at least one draw call; the UI exactly when it has primitives;
/// nothing else. While playing with meshes and UI the pass is exactly
/// sky, clouds, meshes, rivers, fire, smoke, weather, UI.
pub proof fn lemma_main_pass_contents(is_playing: bool, draw_calls: nat, ui_primitives: nat)
    ensures
        ({
            let p = main_pass_plan_spec(is_playing, draw_calls, ui_primitives);
            &&& p.contains(MainPassStep::Meshes) == (is_playing && draw_calls >= 1)
            &&& p.contains(MainPassStep::Sky) == is_playing
            &&& p.contains(MainPassStep::Clouds) == is_playing
            &&& p.contains(MainPassStep::Rivers) == is_playing
            &&& p.contains(MainPassStep::Fire) == is_playing
            &&& p.contains(MainPassStep::Smoke) == is_playing
            &&& p.contains(MainPassStep::Weather) == is_playing
            &&& p.contains(MainPassStep::Ui) == (ui_primitives >= 1)
            &&& p.len() == (if is_playing { 6 + (if draw_calls >= 1 { 1int } else { 0 }) } else { 0int })
                + (if ui_primitives >= 1 { 1int } else { 0 })
            &&& (is_playing && draw_calls >= 1 && ui_primitives >= 1) ==> p == seq![
                MainPassStep::Sky, MainPassStep::Clouds, MainPassStep::Meshes, MainPassStep::Rivers,
                MainPassStep::Fire, MainPassStep::Smoke, MainPassStep::Weather, MainPassStep::Ui]
        }),
{
    let p = main_pass_plan_spec(is_playing, draw_calls, ui_primitives);
    let s = MainPassStep::Sky;
    let c = MainPassStep::Clouds;
    let m = MainPassStep::Meshes;
    let rv = MainPassStep::Rivers;
    let f = MainPassStep::Fire;
    let sm = MainPassStep::Smoke;
    let w = MainPassStep::Weather;
    let u = MainPassStep::Ui;
    let q: Seq<MainPassStep> = if is_playing {
        if draw_calls > 0 {
            if ui_primitives > 0 { seq![s, c, m, rv, f, sm, w, u] } else { seq![s, c, m, rv, f, sm, w] }
        } else {
            if ui_primitives > 0 { seq![s, c, rv, f, sm, w, u] } else { seq![s, c, rv, f, sm, w] }
        }
    } else {
        if ui_primitives > 0 { seq![u] } else { Seq::empty() }
    };
    assert(p =~= q);
    if is_playing {
        assert(q[0] == s);
        assert(q[1] == c);
        if draw_calls > 0 {
            assert(q[2] == m);
            assert(q[3] == rv);
            assert(q[4] == f);
            assert(q[5] == sm);
            assert(q[6] == w);
        } else {
            assert(q[2] == rv);
            assert(q[3] == f);
            assert(q[4] == sm);
            assert(q[5] == w);
            assert(!q.contains(m));
        }
        if ui_primitives > 0 {
            assert(q.last() == u);
        } else {
            assert(!q.contains(u));
        }
    } else {
        if ui_primitives > 0 {
            assert(q[0] == u);
        }
        assert(!q.contains(s) && !q.contains(c) && !q.contains(m) && !q.contains(rv));
        assert(!q.contains(f) && !q.contains(sm) && !q.contains(w));
        if ui_primitives == 0 {
            assert(!q.contains(u));
        }
    }
}

} // verus!
