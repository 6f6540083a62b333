use vstd::prelude::*;
use crate::input::{Io, Key};
use crate::world::{World, Node, main_camera_name};

verus! {

/// One orientation update of the orbit camera. The movement variants shift
/// the pivot offset along the camera basis; `Zoom` scales by the wheel delta;
/// `Pan` and `RotateMouse` use the pointer delta (rotation with both axes
/// negated); `RotateTouch` uses the scaled-down touch delta.
#[derive(Clone, Copy, Debug, PartialEq, Eq, Structural)]
pub enum CameraOp {
    Forward,
    Left,
    Back,
    Right,
    Up,
    Down,
    Zoom,
    Pan,
    RotateMouse,
    RotateTouch,
}

/// The updates to apply this tick, in order, and whether the transform is
/// then recomputed from the orientation.
#[derive(Debug)]
pub struct CameraPlan {
    pub ops: Vec<CameraOp>,
    pub sync_transform: bool,
}

/// The camera records to update and the plan to update them with.
#[derive(Debug)]
pub struct CameraControl {
    pub transform_index: usize,
    pub camera_index: usize,
    pub plan: CameraPlan,
}

/// `op` alone when `b` holds, nothing otherwise.
pub open spec fn op_if(b: bool, op: CameraOp) -> Seq<CameraOp> {
    if b {
        seq![op]
    } else {
        Seq::empty()
    }
}

/// The updates that input `io` calls for, in the order they are applied.
/// Zoom is always among them.
pub open spec fn camera_ops(io: Io) -> Seq<CameraOp> {
    op_if(io.pressed(Key::W), CameraOp::Forward) + op_if(io.pressed(Key::A), CameraOp::Left)
        + op_if(io.pressed(Key::S), CameraOp::Back) + op_if(io.pressed(Key::D), CameraOp::Right)
        + op_if(io.pressed(Key::Space), CameraOp::Up) + op_if(io.pressed(Key::ShiftLeft), CameraOp::Down)
        + seq![CameraOp::Zoom] + op_if(io.mouse.is_middle_clicked, CameraOp::Pan)
        + op_if(io.mouse.is_right_clicked && io.mouse.has_position_delta, CameraOp::RotateMouse)
        + op_if(io.touch.moved, CameraOp::RotateTouch)
}

/// Some input other than the wheel moved the camera this tick.
pub open spec fn needs_sync(io: Io) -> bool {
    io.pressed(Key::W) || io.pressed(Key::A) || io.pressed(Key::S) || io.pressed(Key::D)
        || io.pressed(Key::Space) || io.pressed(Key::ShiftLeft) || io.mouse.is_middle_clicked
        || (io.mouse.is_right_clicked && io.mouse.has_position_delta) || io.touch.moved
}

/// The node of the camera that input drives: the designated camera of the
/// default scene, when it is named `"Main Camera"`.
pub open spec fn main_camera_node<T, C>(w: World<T, C>) -> Option<Node> {
    match w.default_scene_index {
        None => None,
        Some(s) => match w.scenes@[s as int].default_camera_graph_node_index {
            None => None,
            Some(g) => {
                let n = w.nodes@[w.graph_node(s as int, g as int) as int];
                if w.metadata@[n.metadata_index as int].name@ == main_camera_name() {
                    Some(n)
                } else {
                    None
                }
            },
        },
    }
}

fn push_if(ops: &mut Vec<CameraOp>, b: bool, op: CameraOp)
    ensures
        final(ops)@ == old(ops)@ + op_if(b, op),
{
    if b {
        ops.push(op);
    } else {
        assert(old(ops)@ + op_if(b, op) == old(ops)@);
    }
}

/// Turns the input of this tick into camera updates.
pub fn plan_camera_input(io: &Io) -> (r: CameraPlan)
    ensures
        r.ops@ == camera_ops(*io),
        r.sync_transform == needs_sync(*io),
{
    let mut ops: Vec<CameraOp> = Vec::new();
    let mut sync_transform = false;
    let w = io.is_key_pressed(Key::W);
    let a = io.is_key_pressed(Key::A);
    let s = io.is_key_pressed(Key::S);
    let d = io.is_key_pressed(Key::D);
    let up = io.is_key_pressed(Key::Space);
    let down = io.is_key_pressed(Key::ShiftLeft);
    push_if(&mut ops, w, CameraOp::Forward);
    push_if(&mut ops, a, CameraOp::Left);
    push_if(&mut ops, s, CameraOp::Back);
    push_if(&mut ops, d, CameraOp::Right);
    push_if(&mut ops, up, CameraOp::Up);
    push_if(&mut ops, down, CameraOp::Down);
    sync_transform = w || a || s || d || up || down;
    ops.push(CameraOp::Zoom);
    let pan = io.mouse.is_middle_clicked;
    push_if(&mut ops, pan, CameraOp::Pan);
    let rotate = io.mouse.is_right_clicked && io.mouse.has_position_delta;
    push_if(&mut ops, rotate, CameraOp::RotateMouse);
    push_if(&mut ops, io.touch.moved, CameraOp::RotateTouch);
    sync_transform = sync_transform || pan || rotate || io.touch.moved;
    CameraPlan { ops, sync_transform }
}

/// Resolves the input-driven camera of `world` and plans its update for this
/// tick. Nothing is planned when there is no default scene, the scene has no
/// designated camera, or that camera is not named `"Main Camera"`.
pub fn camera_system<T, C>(world: &World<T, C>, io: &Io) -> (r: Option<CameraControl>)
    requires
        world.wf(),
    ensures
        main_camera_node(*world) is None ==> r is None,
        main_camera_node(*world) matches Some(n) ==> (r matches Some(c) && {
            &&& n.camera_index == Some(c.camera_index)
            &&& c.transform_index == n.transform_index
            &&& c.plan.ops@ == camera_ops(*io)
            &&& c.plan.sync_transform == needs_sync(*io)
        }),
{
    let scene_index = match world.default_scene_index {
        None => return None,
        Some(s) => s,
    };
    let scene = &world.scenes[scene_index];
    assert(world.scene_wf(scene_index as int));
    let graph_node = match scene.default_camera_graph_node_index {
        None => return None,
        Some(g) => g,
    };
    let node_index = scene.graph.node_indices[graph_node];
    let node = world.nodes[node_index];
    assert(node.wf_in(
        world.transforms@.len() as nat,
        world.cameras@.len() as nat,
        world.metadata@.len() as nat,
    ));
    let main = "Main Camera".to_owned();
    if world.metadata[node.metadata_index].name != main {
        return None;
    }
    let camera_index = match node.camera_index {
        None => return None,
        Some(c) => c,
    };
    Some(CameraControl {
        transform_index: node.transform_index,
        camera_index,
        plan: plan_camera_input(io),
    })
}

/// A designated camera whose name is not `"Main Camera"` is never driven,
/// whatever the input.
pub proof fn unmarked_camera_is_never_driven<T, C>(w: World<T, C>, s: usize, g: usize)
    requires
        w.wf(),
        w.default_scene_index == Some(s),
        w.scenes@[s as int].default_camera_graph_node_index == Some(g),
        w.metadata@[w.nodes@[w.graph_node(s as int, g as int) as int].metadata_index as int].name@
            != main_camera_name(),
    ensures
        main_camera_node(w) is None,
{
}

/// With nothing pressed and nothing moving, the only update is a zoom by the
/// wheel delta and the camera transform is left as it is.
pub proof fn idle_input_keeps_transform(io: Io)
    requires
        io.is_idle(),
    ensures
        !needs_sync(io),
        camera_ops(io) == seq![CameraOp::Zoom],
{
    assert forall|k: Key| !io.pressed(k) by {}
    assert(camera_ops(io) =~= seq![CameraOp::Zoom]);
}

/// Zoom is planned on every tick; each other update is planned exactly when
/// its trigger holds.
pub proof fn zoom_every_tick(io: Io)
    ensures
        camera_ops(io).contains(CameraOp::Zoom),
        camera_ops(io).contains(CameraOp::Forward) == io.pressed(Key::W),
        camera_ops(io).contains(CameraOp::Left) == io.pressed(Key::A),
        camera_ops(io).contains(CameraOp::Back) == io.pressed(Key::S),
        camera_ops(io).contains(CameraOp::Right) == io.pressed(Key::D),
        camera_ops(io).contains(CameraOp::Up) == io.pressed(Key::Space),
        camera_ops(io).contains(CameraOp::Down) == io.pressed(Key::ShiftLeft),
        camera_ops(io).contains(CameraOp::Pan) == io.mouse.is_middle_clicked,
        camera_ops(io).contains(CameraOp::RotateMouse) == (io.mouse.is_right_clicked
            && io.mouse.has_position_delta),
        camera_ops(io).contains(CameraOp::RotateTouch) == io.touch.moved,
{
    let p1 = op_if(io.pressed(Key::W), CameraOp::Forward);
    let p2 = p1 + op_if(io.pressed(Key::A), CameraOp::Left);
    let p3 = p2 + op_if(io.pressed(Key::S), CameraOp::Back);
    let p4 = p3 + op_if(io.pressed(Key::D), CameraOp::Right);
    let p5 = p4 + op_if(io.pressed(Key::Space), CameraOp::Up);
    let p6 = p5 + op_if(io.pressed(Key::ShiftLeft), CameraOp::Down);
    let p7 = p6 + seq![CameraOp::Zoom];
    let p8 = p7 + op_if(io.mouse.is_middle_clicked, CameraOp::Pan);
    let p9 = p8 + op_if(
        io.mouse.is_right_clicked && io.mouse.has_position_delta,
        CameraOp::RotateMouse,
    );
    let p10 = p9 + op_if(io.touch.moved, CameraOp::RotateTouch);
    assert(p10 == camera_ops(io));
    assert forall|x: CameraOp| #[trigger] p10.contains(x) == (
        (x == CameraOp::Forward && io.pressed(Key::W))
        || (x == CameraOp::Left && io.pressed(Key::A))
        || (x == CameraOp::Back && io.pressed(Key::S))
        || (x == CameraOp::Right && io.pressed(Key::D))
        || (x == CameraOp::Up && io.pressed(Key::Space))
        || (x == CameraOp::Down && io.pressed(Key::ShiftLeft))
        || x == CameraOp::Zoom
        || (x == CameraOp::Pan && io.mouse.is_middle_clicked)
        || (x == CameraOp::RotateMouse && io.mouse.is_right_clicked && io.mouse.has_position_delta)
        || (x == CameraOp::RotateTouch && io.touch.moved)
    ) by {
        lemma_op_if_contains(io.pressed(Key::W), CameraOp::Forward, x);
        lemma_op_if_contains(io.pressed(Key::A), CameraOp::Left, x);
        lemma_op_if_contains(io.pressed(Key::S), CameraOp::Back, x);
        lemma_op_if_contains(io.pressed(Key::D), CameraOp::Right, x);
        lemma_op_if_contains(io.pressed(Key::Space), CameraOp::Up, x);
        lemma_op_if_contains(io.pressed(Key::ShiftLeft), CameraOp::Down, x);
        lemma_op_if_contains(true, CameraOp::Zoom, x);
        assert(op_if(true, CameraOp::Zoom) == seq![CameraOp::Zoom]);
        lemma_op_if_contains(io.mouse.is_middle_clicked, CameraOp::Pan, x);
        lemma_op_if_contains(
            io.mouse.is_right_clicked && io.mouse.has_position_delta,
            CameraOp::RotateMouse,
            x,
        );
        lemma_op_if_contains(io.touch.moved, CameraOp::RotateTouch, x);
        lemma_concat_contains(p1, op_if(io.pressed(Key::A), CameraOp::Left), x);
        lemma_concat_contains(p2, op_if(io.pressed(Key::S), CameraOp::Back), x);
        lemma_concat_contains(p3, op_if(io.pressed(Key::D), CameraOp::Right), x);
        lemma_concat_contains(p4, op_if(io.pressed(Key::Space), CameraOp::Up), x);
        lemma_concat_contains(p5, op_if(io.pressed(Key::ShiftLeft), CameraOp::Down), x);
        lemma_concat_contains(p6, seq![CameraOp::Zoom], x);
        lemma_concat_contains(p7, op_if(io.mouse.is_middle_clicked, CameraOp::Pan), x);
        lemma_concat_contains(
            p8,
            op_if(io.mouse.is_right_clicked && io.mouse.has_position_delta, CameraOp::RotateMouse),
            x,
        );
        lemma_concat_contains(p9, op_if(io.touch.moved, CameraOp::RotateTouch), x);
    }
}

proof fn lemma_op_if_contains(b: bool, op: CameraOp, x: CameraOp)
    ensures
        op_if(b, op).contains(x) == (b && x == op),
{
    if b {
        assert(op_if(b, op)[0] == op);
    }
}

proof fn lemma_concat_contains(a: Seq<CameraOp>, b: Seq<CameraOp>, x: CameraOp)
    ensures
        (a + b).contains(x) == (a.contains(x) || b.contains(x)),
{
    if a.contains(x) {
        let i = choose|i: int| 0 <= i < a.len() && a[i] == x;
        assert((a + b)[i] == x);
    }
    if b.contains(x) {
        let i = choose|i: int| 0 <= i < b.len() && b[i] == x;
        assert((a + b)[a.len() + i] == x);
    }
    if (a + b).contains(x) {
        let i = choose|i: int| 0 <= i < (a + b).len() && (a + b)[i] == x;
        if i < a.len() {
            assert(a[i] == x);
        } else {
            assert(b[i - a.len()] == x);
        }
    }

}

} // verus!
