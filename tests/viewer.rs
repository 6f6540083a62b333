use scene_viewer::app::{Context, Event, EventActions, FrameAction, MouseButton, Size, State, Viewer};
use scene_viewer::camera::{camera_system, plan_camera_input, CameraOp};
use scene_viewer::input::{Io, Key};
use scene_viewer::render::Renderer;
use scene_viewer::world::{Metadata, Node, Scene, SceneGraph, World};

fn mesh_world() -> World<u32, u32> {
    World {
        nodes: vec![
            Node { transform_index: 0, camera_index: None, metadata_index: 0 },
            Node { transform_index: 1, camera_index: None, metadata_index: 1 },
        ],
        transforms: vec![10, 11],
        cameras: vec![],
        metadata: vec![
            Metadata { name: "Helmet".to_string() },
            Metadata { name: "Visor".to_string() },
        ],
        scenes: vec![Scene {
            graph: SceneGraph { node_indices: vec![0, 1], edges: vec![(0, 1)] },
            default_camera_graph_node_index: None,
        }],
        default_scene_index: Some(0),
    }
}

fn empty_world() -> World<u32, u32> {
    World::new()
}

#[test]
fn import_without_scenes_synthesizes_scene_and_camera() {
    let mut context: Context<u32, u32> = Context::new();
    context.import_slice(empty_world(), 7, 9);
    let world = &context.world;
    assert_eq!(world.scenes.len(), 1);
    assert_eq!(world.default_scene_index, Some(0));
    let scene = &world.scenes[0];
    assert_eq!(scene.graph.node_indices, vec![0]);
    assert_eq!(scene.default_camera_graph_node_index, Some(0));
    assert_eq!(world.nodes[0].camera_index, Some(0));
    assert_eq!(world.cameras, vec![9]);
    assert_eq!(world.transforms, vec![7]);
    assert_eq!(world.metadata[0].name, "Main Camera");
    assert!(context.should_reload_view);
}

#[test]
fn import_two_mesh_nodes_then_move_forward() {
    let mut context: Context<u32, u32> = Context::new();
    context.import_file(mesh_world(), 20, 30);
    let world = &context.world;
    assert_eq!(world.nodes.len(), 3);
    assert_eq!(
        world.nodes[2],
        Node { transform_index: 2, camera_index: Some(0), metadata_index: 2 }
    );
    assert_eq!(world.scenes[0].graph.node_indices, vec![0, 1, 2]);
    assert_eq!(world.scenes[0].graph.edges, vec![(0, 1)]);
    assert_eq!(world.scenes[0].default_camera_graph_node_index, Some(2));
    let camera_nodes = world.scenes[0]
        .graph
        .node_indices
        .iter()
        .filter(|&&n| world.nodes[n].camera_index.is_some())
        .count();
    assert_eq!(camera_nodes, 1);

    let actions = context.handle_event(Event::KeyPressed(Key::W));
    assert!(!actions.pick_file);
    let mut viewer = Viewer;
    let control = viewer.update(&context).expect("main camera is driven");
    assert_eq!(control.transform_index, 2);
    assert_eq!(control.camera_index, 0);
    assert_eq!(control.plan.ops, vec![CameraOp::Forward, CameraOp::Zoom]);
    assert!(control.plan.sync_transform);
}

#[test]
fn import_keeps_existing_scenes_and_reload_is_pending() {
    let mut context: Context<u32, u32> = Context::new();
    let mut world = mesh_world();
    world.scenes.push(Scene::new());
    context.import_slice(world, 1, 2);
    assert_eq!(context.world.scenes.len(), 2);
    assert_eq!(context.world.scenes[1].graph.node_indices.len(), 0);
    assert_eq!(context.world.default_scene_index, Some(0));
    assert!(context.should_reload_view);
}

#[test]
fn import_without_default_scene_picks_first_scene_and_adds_camera() {
    let mut context: Context<u32, u32> = Context::new();
    let mut world = mesh_world();
    world.default_scene_index = None;
    context.import_slice(world, 1, 2);
    assert_eq!(context.world.default_scene_index, Some(0));
    assert_eq!(context.world.nodes.len(), 3);
    assert_eq!(context.world.cameras, vec![2]);
    assert_eq!(context.world.scenes[0].graph.node_indices, vec![0, 1, 2]);
    assert_eq!(context.world.scenes[0].default_camera_graph_node_index, Some(2));
    assert_eq!(context.world.metadata[2].name, "Main Camera");
    assert!(context.should_reload_view);
}

#[test]
fn idle_input_only_zooms() {
    let io = Io::new();
    let plan = plan_camera_input(&io);
    assert_eq!(plan.ops, vec![CameraOp::Zoom]);
    assert!(!plan.sync_transform);
    let again = plan_camera_input(&io);
    assert_eq!(again.ops, plan.ops);
    assert!(!again.sync_transform);
}

#[test]
fn every_trigger_plans_its_update_in_order() {
    let mut io = Io::new();
    for key in [Key::W, Key::A, Key::S, Key::D, Key::Space, Key::ShiftLeft] {
        io.press_key(key);
    }
    io.mouse.is_middle_clicked = true;
    io.mouse.is_right_clicked = true;
    io.mouse.has_position_delta = true;
    io.touch.moved = true;
    let plan = plan_camera_input(&io);
    assert_eq!(
        plan.ops,
        vec![
            CameraOp::Forward,
            CameraOp::Left,
            CameraOp::Back,
            CameraOp::Right,
            CameraOp::Up,
            CameraOp::Down,
            CameraOp::Zoom,
            CameraOp::Pan,
            CameraOp::RotateMouse,
            CameraOp::RotateTouch,
        ]
    );
    assert!(plan.sync_transform);
}

#[test]
fn right_drag_without_motion_does_not_rotate() {
    let mut io = Io::new();
    io.mouse.is_right_clicked = true;
    let plan = plan_camera_input(&io);
    assert_eq!(plan.ops, vec![CameraOp::Zoom]);
    assert!(!plan.sync_transform);
}

#[test]
fn middle_drag_pans() {
    let mut io = Io::new();
    io.mouse.is_middle_clicked = true;
    let plan = plan_camera_input(&io);
    assert_eq!(plan.ops, vec![CameraOp::Zoom, CameraOp::Pan]);
    assert!(plan.sync_transform);
}

#[test]
fn camera_not_named_main_is_never_driven() {
    let mut context: Context<u32, u32> = Context::new();
    context.import_slice(mesh_world(), 0, 0);
    context.world.metadata[2].name = "main camera".to_string();
    for key in [Key::W, Key::A, Key::S, Key::D, Key::Space, Key::ShiftLeft] {
        context.handle_event(Event::KeyPressed(key));
    }
    context.handle_event(Event::MouseButton { button: MouseButton::Right, pressed: true });
    context.handle_event(Event::PointerMoved { moved: true });
    context.handle_event(Event::TouchMoved { moved: true });
    assert!(camera_system(&context.world, &context.io).is_none());
}

#[test]
fn no_default_scene_or_camera_is_a_no_op() {
    let io = Io::new();
    assert!(camera_system(&empty_world(), &io).is_none());
    assert!(camera_system(&mesh_world(), &io).is_none());
}

#[test]
fn resize_keeps_depth_buffer_in_lockstep() {
    let mut renderer = Renderer::new(1280, 720);
    assert_eq!(renderer.depth_size, Size { width: 1280, height: 720 });
    renderer.resize(640, 480);
    assert_eq!(renderer.surface_config, Size { width: 640, height: 480 });
    assert_eq!(renderer.depth_size, renderer.surface_config);
    let pass = renderer.render_frame(&empty_world());
    assert_eq!(pass.depth_target, Size { width: 640, height: 480 });
    assert_eq!(pass.color_target, Size { width: 640, height: 480 });
    assert!(!pass.draws_view);
}

#[test]
fn render_after_load_draws_the_view() {
    let mut renderer = Renderer::new(800, 600);
    renderer.load_world(&mesh_world());
    let pass = renderer.render_frame(&mesh_world());
    assert!(pass.draws_view);
    assert_eq!(pass.depth_target, Size { width: 800, height: 600 });
}

#[test]
fn reload_and_render_never_share_a_tick() {
    let mut context: Context<u32, u32> = Context::new();
    assert_eq!(context.idle_tick(), FrameAction::RenderFrame);
    context.import_slice(empty_world(), 0, 0);
    assert_eq!(context.idle_tick(), FrameAction::LoadWorld);
    assert!(!context.should_reload_view);
    assert_eq!(context.idle_tick(), FrameAction::RenderFrame);
}

#[test]
fn event_actions() {
    let mut context: Context<u32, u32> = Context::new();
    let none = EventActions { pick_file: false, resize: None, exit: false, idle: false };
    assert_eq!(context.handle_event(Event::Other), none);
    assert_eq!(
        context.handle_event(Event::KeyPressed(Key::F)),
        EventActions { pick_file: true, ..none }
    );
    assert_eq!(
        context.handle_event(Event::Resized { width: 640, height: 480 }),
        EventActions { resize: Some(Size { width: 640, height: 480 }), ..none }
    );
    assert_eq!(context.handle_event(Event::AboutToWait), EventActions { idle: true, ..none });
    assert!(!context.should_exit);
    assert_eq!(
        context.handle_event(Event::CloseRequested),
        EventActions { exit: true, ..none }
    );
    assert!(context.should_exit);
    assert_eq!(context.handle_event(Event::NewFrame), EventActions { exit: true, ..none });
}

#[test]
fn keys_and_buttons_fold_into_input_state() {
    let mut context: Context<u32, u32> = Context::new();
    context.handle_event(Event::KeyPressed(Key::W));
    context.handle_event(Event::KeyPressed(Key::W));
    context.handle_event(Event::KeyPressed(Key::Other(42)));
    assert!(context.io.is_key_pressed(Key::W));
    assert!(context.io.is_key_pressed(Key::Other(42)));
    assert!(!context.io.is_key_pressed(Key::Other(41)));
    context.handle_event(Event::KeyReleased(Key::W));
    assert!(!context.io.is_key_pressed(Key::W));
    assert!(context.io.is_key_pressed(Key::Other(42)));

    context.handle_event(Event::MouseButton { button: MouseButton::Middle, pressed: true });
    context.handle_event(Event::PointerMoved { moved: true });
    context.handle_event(Event::TouchMoved { moved: true });
    assert!(context.io.mouse.is_middle_clicked);
    assert!(context.io.mouse.has_position_delta);
    assert!(context.io.touch.moved);

    context.handle_event(Event::NewFrame);
    assert!(context.io.mouse.is_middle_clicked);
    assert!(!context.io.mouse.has_position_delta);
    assert!(!context.io.touch.moved);
    assert!(context.io.is_key_pressed(Key::Other(42)));

    context.handle_event(Event::MouseButton { button: MouseButton::Middle, pressed: false });
    assert!(!context.io.mouse.is_middle_clicked);
}

#[test]
fn well_formed_worlds_are_recognized() {
    assert!(empty_world().is_well_formed());
    assert!(mesh_world().is_well_formed());
    assert!(scene_viewer::app::is_importable(&mesh_world()));
    let mut context: Context<u32, u32> = Context::new();
    context.import_slice(mesh_world(), 0, 0);
    assert!(context.world.is_well_formed());
}

#[test]
fn dangling_indices_are_rejected() {
    let mut w = mesh_world();
    w.nodes[1].transform_index = 2;
    assert!(!w.is_well_formed());
    assert!(!scene_viewer::app::is_importable(&w));

    let mut w = mesh_world();
    w.nodes[0].camera_index = Some(0);
    assert!(!w.is_well_formed());

    let mut w = mesh_world();
    w.nodes[0].metadata_index = 5;
    assert!(!w.is_well_formed());

    let mut w = mesh_world();
    w.scenes[0].graph.node_indices.push(2);
    assert!(!w.is_well_formed());

    let mut w = mesh_world();
    w.scenes[0].graph.edges.push((1, 2));
    assert!(!w.is_well_formed());

    let mut w = mesh_world();
    w.scenes[0].default_camera_graph_node_index = Some(0);
    assert!(!w.is_well_formed());

    let mut w = mesh_world();
    w.scenes[0].default_camera_graph_node_index = Some(3);
    assert!(!w.is_well_formed());

    let mut w = mesh_world();
    w.default_scene_index = Some(1);
    assert!(!w.is_well_formed());
}

#[test]
fn graphs_that_are_not_forests_are_rejected() {
    let mut w = mesh_world();
    w.scenes[0].graph.edges.push((1, 0));
    assert!(!w.is_well_formed());

    let mut w = mesh_world();
    w.scenes[0].graph.edges = vec![(0, 0)];
    assert!(!w.is_well_formed());

    let mut w = mesh_world();
    w.nodes.push(Node { transform_index: 0, camera_index: None, metadata_index: 0 });
    w.scenes[0].graph.node_indices.push(2);
    w.scenes[0].graph.edges = vec![(0, 2), (1, 2)];
    assert!(!w.is_well_formed());

    w.scenes[0].graph.edges = vec![(0, 1), (1, 2)];
    assert!(w.is_well_formed());
}

#[test]
fn viewer_hooks_leave_the_world_alone() {
    let mut context: Context<u32, u32> = Context::new();
    context.import_slice(mesh_world(), 0, 0);
    let mut viewer = Viewer;
    viewer.initialize(&mut context);
    viewer.receive_event(&mut context, Event::KeyPressed(Key::S));
    assert_eq!(context.world.nodes.len(), 3);
    assert!(context.world.is_well_formed());
    assert!(!context.io.is_key_pressed(Key::S));
    let control = viewer.update(&context).expect("main camera is driven");
    assert_eq!(control.plan.ops, vec![CameraOp::Zoom]);
}
