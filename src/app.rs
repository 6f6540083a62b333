use vstd::prelude::*;
use crate::camera::{camera_system, camera_ops, main_camera_node, needs_sync, CameraControl};
use crate::input::{Io, Key, MouseState, TouchState};
use crate::world::{World, Scene, Node, main_camera_name};

verus! {

/// What the application owns between ticks.
#[derive(Debug)]
pub struct Context<T, C> {
    pub io: Io,
    pub world: World<T, C>,
    pub should_exit: bool,
    pub should_reload_view: bool,
}

/// A surface size in physical pixels.
#[derive(Clone, Copy, Debug, PartialEq, Eq, Structural)]
pub struct Size {
    pub width: u32,
    pub height: u32,
}

/// A mouse button.
#[derive(Clone, Copy, Debug, PartialEq, Eq, Structural)]
pub enum MouseButton {
    Left,
    Middle,
    Right,
}

/// A platform event, as far as the orchestration rules read it. Pointer and
/// touch motion arrive already reduced to whether there was any.
#[derive(Clone, Copy, Debug, PartialEq, Eq, Structural)]
pub enum Event {
    NewFrame,
    CloseRequested,
    KeyPressed(Key),
    KeyReleased(Key),
    Resized { width: u32, height: u32 },
    MouseButton { button: MouseButton, pressed: bool },
    PointerMoved { moved: bool },
    TouchMoved { moved: bool },
    AboutToWait,
    Other,
}

/// What the event loop does for one event, besides the state kept here.
#[derive(Clone, Copy, Debug, PartialEq, Eq, Structural)]
pub struct EventActions {
    /// Open the file picker and import what it yields.
    pub pick_file: bool,
    /// Resize the renderer's surface and depth buffer to this size.
    pub resize: Option<Size>,
    /// Leave the event loop.
    pub exit: bool,
    /// All events of the tick are drained: make the idle step.
    pub idle: bool,
}

/// The idle step's one GPU action: rebuild the compiled view, or draw.
#[derive(Clone, Copy, Debug, PartialEq, Eq, Structural)]
pub enum FrameAction {
    LoadWorld,
    RenderFrame,
}

/// The scene that import makes the default: the source's default scene when
/// it names one, else the first scene (a fresh empty one when there is none).
pub open spec fn import_default_scene<T, C>(src: World<T, C>) -> usize {
    match src.default_scene_index {
        Some(d) => if src.scenes@.len() > 0 {
            d
        } else {
            0
        },
        None => 0,
    }
}

/// `w` is the world after import post-processing of `src`: a default empty
/// scene when `src` has no scene, a default scene chosen when `src` names
/// none, then a camera named `"Main Camera"` with records `t` and `c`
/// attached to the default scene.
pub open spec fn post_import<T, C>(src: World<T, C>, t: T, c: C, w: World<T, C>) -> bool {
    let d = import_default_scene(src);
    let old_graph = if src.scenes@.len() == 0 {
        Seq::<usize>::empty()
    } else {
        src.scenes@[d as int].graph.node_indices@
    };
    let old_edges = if src.scenes@.len() == 0 {
        Seq::<(usize, usize)>::empty()
    } else {
        src.scenes@[d as int].graph.edges@
    };
    &&& w.wf()
    &&& w.scenes@.len() == if src.scenes@.len() == 0 {
        1nat
    } else {
        src.scenes@.len() as nat
    }
    &&& w.default_scene_index == Some(d)
    &&& forall|s: int|
        0 <= s < src.scenes@.len() && s != d ==> (#[trigger] w.scenes@[s]) == src.scenes@[s]
    &&& w.transforms@ == src.transforms@.push(t)
    &&& w.cameras@ == src.cameras@.push(c)
    &&& w.metadata@.drop_last() == src.metadata@
    &&& w.metadata@.len() == src.metadata@.len() + 1
    &&& w.metadata@.last().name@ == main_camera_name()
    &&& w.nodes@ == src.nodes@.push(
        Node {
            transform_index: src.transforms@.len() as usize,
            camera_index: Some(src.cameras@.len() as usize),
            metadata_index: src.metadata@.len() as usize,
        },
    )
    &&& w.scenes@[d as int].graph.node_indices@ == old_graph.push(src.nodes@.len() as usize)
    &&& w.scenes@[d as int].graph.edges@ == old_edges
    &&& w.scenes@[d as int].default_camera_graph_node_index == Some(old_graph.len() as usize)
}

/// Inputs that import post-processing accepts: a well-formed world whose
/// default scene to be has room for one more graph node.
pub open spec fn importable<T, C>(w: World<T, C>) -> bool {
    &&& w.wf()
    &&& (w.scenes@.len() > 0 ==> w.scenes@[import_default_scene(w) as int].graph.node_indices@.len()
        < usize::MAX)
}

/// Input state `new` is `old` with `event` folded in. A new frame clears the
/// per-frame pointer and touch motion; held keys and buttons persist.
pub open spec fn folded(old: Io, event: Event, new: Io) -> bool {
    match event {
        Event::KeyPressed(k) => {
            &&& forall|j: Key| #[trigger] new.pressed(j) == (j == k || old.pressed(j))
            &&& new.mouse == old.mouse
            &&& new.touch == old.touch
        },
        Event::KeyReleased(k) => {
            &&& forall|j: Key| #[trigger] new.pressed(j) == (j != k && old.pressed(j))
            &&& new.mouse == old.mouse
            &&& new.touch == old.touch
        },
        Event::MouseButton { button, pressed } => {
            &&& new.keys == old.keys
            &&& new.touch == old.touch
            &&& new.mouse.has_position_delta == old.mouse.has_position_delta
            &&& new.mouse.is_left_clicked == (if button == MouseButton::Left {
                pressed
            } else {
                old.mouse.is_left_clicked
            })
            &&& new.mouse.is_middle_clicked == (if button == MouseButton::Middle {
                pressed
            } else {
                old.mouse.is_middle_clicked
            })
            &&& new.mouse.is_right_clicked == (if button == MouseButton::Right {
                pressed
            } else {
                old.mouse.is_right_clicked
            })
        },
        Event::PointerMoved { moved } => {
            &&& new.keys == old.keys
            &&& new.touch == old.touch
            &&& new.mouse == (MouseState { has_position_delta: moved, ..old.mouse })
        },
        Event::TouchMoved { moved } => {
            &&& new.keys == old.keys
            &&& new.mouse == old.mouse
            &&& new.touch == (TouchState { moved })
        },
        Event::NewFrame => {
            &&& new.keys == old.keys
            &&& new.mouse == (MouseState { has_position_delta: false, ..old.mouse })
            &&& new.touch == (TouchState { moved: false })
        },
        _ => new == old,
    }
}

/// The resize that `event` asks for, if any.
pub open spec fn resize_of(event: Event) -> Option<Size> {
    match event {
        Event::Resized { width, height } => Some(Size { width, height }),
        _ => None,
    }
}

/// Whether `world` may be handed to import: its indices are valid and its
/// default scene can take one more graph node.
pub fn is_importable<T, C>(world: &World<T, C>) -> (r: bool)
    ensures
        r == importable(*world),
{
    if !world.is_well_formed() {
        return false;
    }
    if world.scenes.len() == 0 {
        return true;
    }
    let d = match world.default_scene_index {
        Some(d) => d,
        None => 0,
    };
    world.scenes[d].graph.node_indices.len() < usize::MAX
}

impl<T, C> Context<T, C> {
    /// A context with an empty world and no pending work.
    pub fn new() -> (r: Context<T, C>)
        ensures
            r.io.is_idle(),
            r.world.wf(),
            r.world.scenes@.len() == 0,
            r.world.nodes@.len() == 0,
            r.world.transforms@.len() == 0,
            r.world.cameras@.len() == 0,
            r.world.metadata@.len() == 0,
            r.world.default_scene_index is None,
            !r.should_exit,
            !r.should_reload_view,
    {
        Context { io: Io::new(), world: World::new(), should_exit: false, should_reload_view: false }
    }

    /// The imported world replaces the current one wholesale; it is completed
    /// so that a default scene with a controllable camera exists, and a
    /// rebuild of the compiled view is scheduled.
    fn install_world(&mut self, world: World<T, C>, camera_transform: T, camera: C)
        requires
            importable(world),
        ensures
            post_import(world, camera_transform, camera, final(self).world),
            final(self).should_reload_view,
            final(self).should_exit == old(self).should_exit,
            final(self).io == old(self).io,
    {
        let ghost src = world;
        self.world = world;
        if self.world.scenes.len() == 0 {
            self.world.scenes.push(Scene::new());
            self.world.default_scene_index = Some(0);
            assert(self.world.scene_wf(0)) by {
                assert(self.world.scenes@[0].graph.node_indices@.len() == 0);
                assert(self.world.scenes@[0].graph.edges@.len() == 0);
            }
            assert(forall|s: int| 0 <= s < self.world.scenes@.len() ==> #[trigger] self.world.scene_wf(s));
        } else if self.world.default_scene_index.is_none() {
            self.world.default_scene_index = Some(0);
            assert forall|s: int| 0 <= s < self.world.scenes@.len() implies #[trigger] self.world.scene_wf(s) by {
                assert(src.scene_wf(s));
            }
        }
        let ghost mid = self.world;
        let scene_index = match self.world.default_scene_index {
            Some(d) => d,
            None => 0,
        };
        assert(scene_index == import_default_scene(src));
        self.world.add_camera_to_scenegraph(scene_index, camera_transform, camera);
        assert(src.scenes@.len() > 0 ==> mid.scenes@ == src.scenes@);
        assert(src.scenes@.len() == 0 ==> mid.scenes@[0].graph.edges@ =~= Seq::<(usize, usize)>::empty());
        assert(src.scenes@.len() == 0 ==> mid.scenes@[0].graph.node_indices@ =~= Seq::<usize>::empty());
        self.should_reload_view = true;
    }

    /// Replaces the world with one read from an asset file.
    pub fn import_file(&mut self, world: World<T, C>, camera_transform: T, camera: C)
        requires
            importable(world),
        ensures
            post_import(world, camera_transform, camera, final(self).world),
            final(self).should_reload_view,
            final(self).should_exit == old(self).should_exit,
            final(self).io == old(self).io,
    {
        self.install_world(world, camera_transform, camera);
    }

    /// Replaces the world with one decoded from an in-memory asset.
    pub fn import_slice(&mut self, world: World<T, C>, camera_transform: T, camera: C)
        requires
            importable(world),
        ensures
            post_import(world, camera_transform, camera, final(self).world),
            final(self).should_reload_view,
            final(self).should_exit == old(self).should_exit,
            final(self).io == old(self).io,
    {
        self.install_world(world, camera_transform, camera);
    }

    /// Handles one platform event: a close request sets `should_exit`, the
    /// import key asks for a file pick, a resize is passed on, and the event
    /// is folded into the input state. For a new-frame event the update hook
    /// runs before this call. The world and the reload flag are untouched.
    pub fn handle_event(&mut self, event: Event) -> (r: EventActions)
        ensures
            final(self).world == old(self).world,
            final(self).should_reload_view == old(self).should_reload_view,
            final(self).should_exit == (old(self).should_exit || event == Event::CloseRequested),
            folded(old(self).io, event, final(self).io),
            r.pick_file == (event == Event::KeyPressed(Key::F)),
            r.resize == resize_of(event),
            r.exit == final(self).should_exit,
            r.idle == (event == Event::AboutToWait),
    {
        let mut actions = EventActions { pick_file: false, resize: None, exit: false, idle: false };
        match event {
            Event::NewFrame => {
                self.io.mouse.has_position_delta = false;
                self.io.touch.moved = false;
            },
            Event::CloseRequested => {
                self.should_exit = true;
            },
            Event::KeyPressed(k) => {
                if k == Key::F {
                    actions.pick_file = true;
                }
                self.io.press_key(k);
            },
            Event::KeyReleased(k) => {
                self.io.release_key(k);
            },
            Event::Resized { width, height } => {
                actions.resize = Some(Size { width, height });
            },
            Event::MouseButton { button, pressed } => {
                match button {
                    MouseButton::Left => {
                        self.io.mouse.is_left_clicked = pressed;
                    },
                    MouseButton::Middle => {
                        self.io.mouse.is_middle_clicked = pressed;
                    },
                    MouseButton::Right => {
                        self.io.mouse.is_right_clicked = pressed;
                    },
                }
            },
            Event::PointerMoved { moved } => {
                self.io.mouse.has_position_delta = moved;
            },
            Event::TouchMoved { moved } => {
                self.io.touch.moved = moved;
            },
            Event::AboutToWait => {
                actions.idle = true;
            },
            Event::Other => {},
        }
        actions.exit = self.should_exit;
        actions
    }

    /// The idle step, once any pending import has been taken in: rebuild the
    /// compiled view when a reload is pending, and clear the flag; draw
    /// otherwise. Never both.
    pub fn idle_tick(&mut self) -> (r: FrameAction)
        ensures
            r == (if old(self).should_reload_view {
                FrameAction::LoadWorld
            } else {
                FrameAction::RenderFrame
            }),
            !final(self).should_reload_view,
            final(self).world == old(self).world,
            final(self).io == old(self).io,
            final(self).should_exit == old(self).should_exit,
    {
        if self.should_reload_view {
            self.should_reload_view = false;
            FrameAction::LoadWorld
        } else {
            FrameAction::RenderFrame
        }
    }
}

/// Pluggable application behavior, called by the event loop: once before it
/// starts, for every event, and on every new frame before rendering. Each
/// hook keeps the world well formed. The per-frame hook hands back the camera
/// updates to apply, if any.
pub trait State<T, C> {
    fn initialize(&mut self, context: &mut Context<T, C>)
        requires
            old(context).world.wf(),
        ensures
            final(context).world.wf(),
    ;

    fn receive_event(&mut self, context: &mut Context<T, C>, event: Event)
        requires
            old(context).world.wf(),
        ensures
            final(context).world.wf(),
    ;

    fn update(&mut self, context: &Context<T, C>) -> (r: Option<CameraControl>)
        requires
            context.world.wf(),
    ;
}

/// The default application behavior: drive the main camera from input. Its
/// start-up asset is imported by whoever holds the asset importer.
#[derive(Clone, Copy, Debug, Default, PartialEq, Eq, Structural)]
pub struct Viewer;

impl<T, C> State<T, C> for Viewer {
    fn initialize(&mut self, _context: &mut Context<T, C>) {
    }

    fn receive_event(&mut self, _context: &mut Context<T, C>, _event: Event) {
    }

    /// The camera updates for this tick, if the world has an input-driven
    /// camera.
    fn update(&mut self, context: &Context<T, C>) -> (r: Option<CameraControl>)
        ensures
            main_camera_node(context.world) is None ==> r is None,
            main_camera_node(context.world) matches Some(n) ==> (r matches Some(c) && {
                &&& n.camera_index == Some(c.camera_index)
                &&& c.transform_index == n.transform_index
                &&& c.plan.ops@ == camera_ops(context.io)
                &&& c.plan.sync_transform == needs_sync(context.io)
            }),
    {
        camera_system(&context.world, &context.io)
    }
}

/// Importing a world without scenes yields exactly one scene, made the
/// default, whose hierarchy holds exactly one node, and that node carries a
/// camera.
pub proof fn empty_import_gets_one_camera<T, C>(src: World<T, C>, t: T, c: C, w: World<T, C>)
    requires
        importable(src),
        src.scenes@.len() == 0,
        post_import(src, t, c, w),
    ensures
        w.scenes@.len() == 1,
        w.default_scene_index == Some(0usize),
        w.scenes@[0].graph.node_indices@.len() == 1,
        w.nodes@[w.graph_node(0, 0) as int].camera_index is Some,
        w.scenes@[0].default_camera_graph_node_index == Some(0usize),
{
    assert(w.scene_wf(0));
}

} // verus!
