use animation_player::animation::{advance_clock, Animation, BoundValue, Track};
use animation_player::base::{Base, BaseBuilder, ResourceManager};
use animation_player::container::AnimationContainer;
use animation_player::curve::{Curve, CurveKey};
use animation_player::graph::Graph;
use animation_player::math::{Axis, AxisAlignedBoundingBox, Vector3};
use animation_player::node::{Node, UpdateContext, Uuid};
use animation_player::player::{AnimationPlayer, AnimationPlayerBuilder};
use animation_player::pool::Handle;
use animation_player::variable::InheritableVariable;

fn bounce_curve() -> Curve {
    let mut curve = Curve::new();
    curve.add_key(CurveKey { time: 100, value: 1000 });
    curve.add_key(CurveKey { time: 200, value: 0 });
    curve.add_key(CurveKey { time: 300, value: 750 });
    curve.add_key(CurveKey { time: 400, value: 0 });
    curve.add_key(CurveKey { time: 500, value: 250 });
    curve.add_key(CurveKey { time: 600, value: 0 });
    curve
}

fn bounce_animation(target: Handle) -> Animation {
    let mut animation = Animation::new();
    animation.add_track(Track::new(target, Axis::Y, bounce_curve()));
    animation.set_time_slice(0, 600);
    animation.set_enabled(true);
    animation
}

fn bounce_container(target: Handle) -> AnimationContainer {
    let mut animations = AnimationContainer::new();
    animations.add(bounce_animation(target));
    animations
}

fn pivot_at(x: i32, y: i32, z: i32) -> Node {
    Node::Pivot(BaseBuilder::new().with_local_position(Vector3::new(x, y, z)).build_base())
}

fn player_of(node: Node) -> AnimationPlayer {
    match node {
        Node::AnimationPlayer(player) => player,
        Node::Pivot(_) => panic!("the builder makes a player"),
    }
}

fn step(player: &mut AnimationPlayer, graph: &mut Graph, dt: i64) {
    let mut context = UpdateContext { dt, nodes: graph };
    player.update(&mut context);
    assert_eq!(context.dt, dt);
}

fn position(graph: &Graph, h: Handle) -> Vector3 {
    graph.try_get(h).unwrap().base().local_position()
}

#[test]
fn bounce_follows_keys_when_applied() {
    let mut graph = Graph::new();
    let target = graph.add_node(pivot_at(3, 7, 11));
    let mut player = player_of(
        AnimationPlayerBuilder::new(BaseBuilder::new())
            .with_animations(bounce_container(target))
            .with_auto_apply(true)
            .build_node(),
    );
    let expected: [i32; 6] = [1000, 0, 750, 0, 250, 0];
    for (done, want) in expected.iter().enumerate() {
        step(&mut player, &mut graph, 100);
        let clock = player.animations().get_value_ref().get(0).unwrap().time_position();
        assert_eq!(clock, 100 * (done as i64 + 1));
        assert_eq!(position(&graph, target), Vector3::new(3, *want, 11));
    }
}

#[test]
fn bounce_is_linear_between_keys() {
    let mut graph = Graph::new();
    let target = graph.add_node(pivot_at(0, 0, 0));
    let mut player = player_of(
        AnimationPlayerBuilder::new(BaseBuilder::new())
            .with_animations(bounce_container(target))
            .build_node(),
    );
    step(&mut player, &mut graph, 150);
    assert_eq!(position(&graph, target).y, 500);
    step(&mut player, &mut graph, 75);
    assert_eq!(position(&graph, target).y, 187);
    step(&mut player, &mut graph, 50);
    assert_eq!(position(&graph, target).y, 562);
}

#[test]
fn nothing_is_written_without_auto_apply() {
    let mut graph = Graph::new();
    let target = graph.add_node(pivot_at(3, 7, 11));
    let mut player = player_of(
        AnimationPlayerBuilder::new(BaseBuilder::new())
            .with_animations(bounce_container(target))
            .with_auto_apply(false)
            .build_node(),
    );
    assert!(!player.is_auto_apply());
    for done in 1..=5i64 {
        step(&mut player, &mut graph, 100);
        assert_eq!(position(&graph, target), Vector3::new(3, 7, 11));
        let animation = player.animations().get_value_ref().get(0).unwrap();
        assert_eq!(animation.time_position(), 100 * done);
    }
    let animation = player.animations().get_value_ref().get(0).unwrap();
    assert_eq!(animation.pose_len(), 1);
    assert_eq!(
        animation.pose_value(0),
        Some(BoundValue { target, axis: Axis::Y, value: 250 })
    );
    assert_eq!(animation.pose_value(1), None);
}

#[test]
fn toggling_auto_apply_takes_effect_on_the_next_update() {
    let mut graph = Graph::new();
    let target = graph.add_node(pivot_at(0, 7, 0));
    let mut player = player_of(
        AnimationPlayerBuilder::new(BaseBuilder::new())
            .with_animations(bounce_container(target))
            .with_auto_apply(false)
            .build_node(),
    );
    step(&mut player, &mut graph, 100);
    assert_eq!(position(&graph, target).y, 7);
    player.set_auto_apply(true);
    assert!(player.is_auto_apply());
    step(&mut player, &mut graph, 200);
    assert_eq!(position(&graph, target).y, 750);
    player.set_auto_apply(false);
    step(&mut player, &mut graph, 100);
    assert_eq!(position(&graph, target).y, 750);
}

#[test]
fn untargeted_nodes_are_untouched() {
    let mut graph = Graph::new();
    let bystander = graph.add_node(pivot_at(1, 2, 3));
    let target = graph.add_node(pivot_at(4, 5, 6));
    let other = graph.add_node(pivot_at(7, 8, 9));
    let mut player = player_of(
        AnimationPlayerBuilder::new(BaseBuilder::new())
            .with_animations(bounce_container(target))
            .build_node(),
    );
    step(&mut player, &mut graph, 100);
    assert_eq!(position(&graph, bystander), Vector3::new(1, 2, 3));
    assert_eq!(position(&graph, target), Vector3::new(4, 1000, 6));
    assert_eq!(position(&graph, other), Vector3::new(7, 8, 9));
    assert_eq!(graph.capacity(), 3);
}

#[test]
fn dangling_target_is_passed_over() {
    let mut graph = Graph::new();
    let bystander = graph.add_node(pivot_at(1, 2, 3));
    let target = graph.add_node(pivot_at(4, 5, 6));
    let mut player = player_of(
        AnimationPlayerBuilder::new(BaseBuilder::new())
            .with_animations(bounce_container(target))
            .with_auto_apply(true)
            .build_node(),
    );
    assert!(graph.remove_node(target).is_some());
    assert!(!graph.is_valid_handle(target));
    step(&mut player, &mut graph, 100);
    assert_eq!(position(&graph, bystander), Vector3::new(1, 2, 3));
    assert!(graph.try_get(target).is_none());
    assert_eq!(
        player.animations().get_value_ref().get(0).unwrap().time_position(),
        100
    );
}

#[test]
fn stale_handle_does_not_reach_the_node_that_took_its_place() {
    let mut graph = Graph::new();
    let target = graph.add_node(pivot_at(4, 5, 6));
    let mut player = player_of(
        AnimationPlayerBuilder::new(BaseBuilder::new())
            .with_animations(bounce_container(target))
            .build_node(),
    );
    graph.remove_node(target);
    let newcomer = graph.add_node(pivot_at(7, 8, 9));
    assert_eq!(newcomer.index, target.index);
    assert_eq!(newcomer.generation, target.generation + 1);
    step(&mut player, &mut graph, 100);
    assert_eq!(position(&graph, newcomer), Vector3::new(7, 8, 9));
}

#[test]
fn never_resolved_target_is_passed_over() {
    let mut graph = Graph::new();
    let bystander = graph.add_node(pivot_at(1, 2, 3));
    let mut player = player_of(
        AnimationPlayerBuilder::new(BaseBuilder::new())
            .with_animations(bounce_container(Handle::none()))
            .build_node(),
    );
    assert!(Handle::none().is_none());
    assert!(!graph.is_valid_handle(Handle::none()));
    step(&mut player, &mut graph, 100);
    assert_eq!(position(&graph, bystander), Vector3::new(1, 2, 3));
}

#[test]
fn empty_container_update_changes_nothing() {
    let mut graph = Graph::new();
    let bystander = graph.add_node(pivot_at(1, 2, 3));
    let mut player = AnimationPlayer::default();
    assert!(player.is_auto_apply());
    assert_eq!(player.animations().get_value_ref().len(), 0);
    step(&mut player, &mut graph, 100);
    assert_eq!(position(&graph, bystander), Vector3::new(1, 2, 3));
    assert_eq!(player.animations().get_value_ref().len(), 0);
}

#[test]
fn zero_dt_keeps_the_clock() {
    let mut graph = Graph::new();
    let target = graph.add_node(pivot_at(0, 0, 0));
    let mut player = player_of(
        AnimationPlayerBuilder::new(BaseBuilder::new())
            .with_animations(bounce_container(target))
            .build_node(),
    );
    step(&mut player, &mut graph, 250);
    step(&mut player, &mut graph, 0);
    assert_eq!(
        player.animations().get_value_ref().get(0).unwrap().time_position(),
        250
    );
    assert_eq!(position(&graph, target).y, 375);
}

#[test]
fn two_updates_advance_twice() {
    let mut graph = Graph::new();
    let target = graph.add_node(pivot_at(0, 0, 0));
    let mut player = player_of(
        AnimationPlayerBuilder::new(BaseBuilder::new())
            .with_animations(bounce_container(target))
            .build_node(),
    );
    step(&mut player, &mut graph, 100);
    step(&mut player, &mut graph, 100);
    assert_eq!(
        player.animations().get_value_ref().get(0).unwrap().time_position(),
        200
    );
}

#[test]
fn disabled_animation_stands_still() {
    let mut graph = Graph::new();
    let target = graph.add_node(pivot_at(0, 7, 0));
    let mut animation = bounce_animation(target);
    animation.set_enabled(false);
    assert!(!animation.is_enabled());
    let mut animations = AnimationContainer::new();
    assert_eq!(animations.add(animation), 0);
    let mut player = player_of(
        AnimationPlayerBuilder::new(BaseBuilder::new())
            .with_animations(animations)
            .build_node(),
    );
    step(&mut player, &mut graph, 100);
    assert_eq!(position(&graph, target).y, 7);
    assert_eq!(
        player.animations().get_value_ref().get(0).unwrap().time_position(),
        0
    );
}

#[test]
fn update_is_silent_and_set_animations_is_not() {
    let mut graph = Graph::new();
    let target = graph.add_node(pivot_at(0, 0, 0));
    let mut player = player_of(
        AnimationPlayerBuilder::new(BaseBuilder::new())
            .with_animations(bounce_container(target))
            .build_node(),
    );
    assert!(player.animations().is_modified());
    player.animations_mut().reset_modified();
    assert!(!player.animations().is_modified());
    for _ in 0..4 {
        step(&mut player, &mut graph, 100);
        assert!(!player.animations().is_modified());
    }
    player.set_animations(AnimationContainer::new());
    assert!(player.animations().is_modified());
    assert_eq!(player.animations().get_value_ref().len(), 0);
    for _ in 0..4 {
        step(&mut player, &mut graph, 100);
        assert!(player.animations().is_modified());
    }
}

#[test]
fn slot_tells_silent_writes_from_edits() {
    let mut slot = InheritableVariable::new_non_modified(5u32);
    assert_eq!(*slot.get_value_ref(), 5);
    assert!(!slot.is_modified());
    *slot.get_value_mut_silent() = 6;
    assert_eq!(*slot.get_value_ref(), 6);
    assert!(!slot.is_modified());
    assert_eq!(slot.set_value_silent(7), 6);
    assert!(!slot.is_modified());
    *slot.get_value_mut_and_mark_modified() = 8;
    assert_eq!(*slot.get_value_ref(), 8);
    assert!(slot.is_modified());
    slot.reset_modified();
    assert!(!slot.is_modified());
    assert_eq!(slot.set_value_and_mark_modified(9), 8);
    assert!(slot.is_modified());
    assert_eq!(slot.take(), 9);
    let given = InheritableVariable::new_modified(1u8);
    assert!(given.is_modified());
}

#[test]
fn with_auto_apply_twice_is_once() {
    let once = player_of(
        AnimationPlayerBuilder::new(BaseBuilder::new())
            .with_auto_apply(true)
            .build_node(),
    );
    let twice = player_of(
        AnimationPlayerBuilder::new(BaseBuilder::new())
            .with_auto_apply(true)
            .with_auto_apply(true)
            .build_node(),
    );
    assert_eq!(once.is_auto_apply(), twice.is_auto_apply());
    assert!(twice.is_auto_apply());
    assert_eq!(once.base(), twice.base());
    assert_eq!(
        once.animations().get_value_ref().len(),
        twice.animations().get_value_ref().len()
    );
    assert_eq!(once.animations().is_modified(), twice.animations().is_modified());
}

#[test]
fn later_setter_overwrites_earlier() {
    let player = player_of(
        AnimationPlayerBuilder::new(BaseBuilder::new())
            .with_auto_apply(false)
            .with_animations(bounce_container(Handle::none()))
            .with_animations(AnimationContainer::new())
            .with_auto_apply(true)
            .with_auto_apply(false)
            .build_node(),
    );
    assert!(!player.is_auto_apply());
    assert_eq!(player.animations().get_value_ref().len(), 0);
}

#[test]
fn builder_defaults() {
    let player = player_of(AnimationPlayerBuilder::new(BaseBuilder::new()).build_node());
    assert!(player.is_auto_apply());
    assert_eq!(player.animations().get_value_ref().len(), 0);
    assert_eq!(*player.base(), Base::default());
}

#[test]
fn build_stores_the_player_in_the_graph() {
    let mut graph = Graph::new();
    let first = graph.add_node(pivot_at(0, 0, 0));
    let h = AnimationPlayerBuilder::new(
        BaseBuilder::new().with_local_position(Vector3::new(1, 2, 3)),
    )
    .with_auto_apply(false)
    .build(&mut graph);
    assert_ne!(h, first);
    assert!(graph.is_valid_handle(h));
    match graph.try_get(h).unwrap() {
        Node::AnimationPlayer(player) => {
            assert!(!player.is_auto_apply());
            assert_eq!(player.base().local_position(), Vector3::new(1, 2, 3));
        }
        Node::Pivot(_) => panic!("a player was stored"),
    }
}

#[test]
fn player_id_is_fixed() {
    let player = AnimationPlayer::default();
    let id = Uuid(0x44d1c94e_354f_4f9a_b918_9d31c28aa16a);
    assert_eq!(player.id(), id);
    assert_eq!(AnimationPlayer::type_uuid(), id);
    let node = Node::new(player);
    assert_eq!(node.id(), id);
    assert_ne!(pivot_at(0, 0, 0).id(), id);
}

#[test]
fn bounding_boxes_come_from_the_base() {
    let bounds = AxisAlignedBoundingBox {
        min: Vector3::new(-1, -2, -3),
        max: Vector3::new(1, 2, 3),
    };
    let mut player = player_of(
        AnimationPlayerBuilder::new(BaseBuilder::new().with_local_bounds(bounds)).build_node(),
    );
    assert_eq!(player.local_bounding_box(), bounds);
    assert_eq!(player.world_bounding_box(), bounds);
    assert_eq!(player.local_bounding_box(), player.base().local_bounding_box());
    player.base_mut().world_bounds = AxisAlignedBoundingBox::collapsed();
    assert_eq!(player.world_bounding_box(), AxisAlignedBoundingBox::collapsed());
    let node = Node::new(player);
    assert_eq!(node.local_bounding_box(), bounds);
    assert_eq!(node.world_bounding_box(), AxisAlignedBoundingBox::collapsed());
}

#[test]
fn restore_resources_changes_nothing() {
    let mut graph = Graph::new();
    let target = graph.add_node(pivot_at(0, 0, 0));
    let mut player = player_of(
        AnimationPlayerBuilder::new(BaseBuilder::new())
            .with_animations(bounce_container(target))
            .with_auto_apply(false)
            .build_node(),
    );
    step(&mut player, &mut graph, 100);
    let base = *player.base();
    player.restore_resources(ResourceManager {});
    player.restore_resources(ResourceManager {});
    assert_eq!(*player.base(), base);
    assert!(!player.is_auto_apply());
    assert_eq!(
        player.animations().get_value_ref().get(0).unwrap().time_position(),
        100
    );
}

#[test]
fn clock_wraps_stops_and_runs_backwards() {
    assert_eq!(advance_clock(0, 100, 0, 600, true), 100);
    assert_eq!(advance_clock(500, 100, 0, 600, true), 600);
    assert_eq!(advance_clock(600, 100, 0, 600, true), 100);
    assert_eq!(advance_clock(600, 100, 0, 600, false), 600);
    assert_eq!(advance_clock(100, -50, 0, 600, true), 50);
    assert_eq!(advance_clock(100, -150, 0, 600, true), 550);
    assert_eq!(advance_clock(100, -700, 0, 600, true), 0);
    assert_eq!(advance_clock(100, -150, 0, 600, false), 0);
    assert_eq!(advance_clock(5, 1, 10, 10, true), 10);
    assert_eq!(advance_clock(5, 1, 10, 3, false), 10);
    assert_eq!(advance_clock(i64::MAX, i64::MAX, 0, 600, false), 600);
    assert_eq!(advance_clock(i64::MIN, i64::MIN, -7, 600, false), -7);
    assert_eq!(advance_clock(i64::MAX, i64::MAX, i64::MIN, i64::MAX, true), -1);
}

#[test]
fn negative_dt_is_passed_on() {
    let mut graph = Graph::new();
    let target = graph.add_node(pivot_at(0, 0, 0));
    let mut animation = bounce_animation(target);
    animation.set_loop(false);
    let mut animations = AnimationContainer::new();
    animations.add(animation);
    let mut player = player_of(
        AnimationPlayerBuilder::new(BaseBuilder::new())
            .with_animations(animations)
            .build_node(),
    );
    step(&mut player, &mut graph, 300);
    step(&mut player, &mut graph, -150);
    assert_eq!(
        player.animations().get_value_ref().get(0).unwrap().time_position(),
        150
    );
    assert_eq!(position(&graph, target).y, 500);
    step(&mut player, &mut graph, -1000);
    assert_eq!(
        player.animations().get_value_ref().get(0).unwrap().time_position(),
        0
    );
    assert_eq!(position(&graph, target).y, 1000);
}

#[test]
fn curve_values() {
    let empty = Curve::new();
    assert_eq!(empty.value_at(5), 0);
    assert_eq!(empty.len(), 0);
    let curve = bounce_curve();
    assert_eq!(curve.len(), 6);
    assert_eq!(curve.value_at(i64::MIN), 1000);
    assert_eq!(curve.value_at(0), 1000);
    assert_eq!(curve.value_at(100), 1000);
    assert_eq!(curve.value_at(101), 990);
    assert_eq!(curve.value_at(199), 10);
    assert_eq!(curve.value_at(200), 0);
    assert_eq!(curve.value_at(201), 7);
    assert_eq!(curve.value_at(250), 375);
    assert_eq!(curve.value_at(600), 0);
    assert_eq!(curve.value_at(i64::MAX), 0);
    let mut wide = Curve::new();
    wide.add_key(CurveKey { time: i64::MIN, value: i32::MIN });
    wide.add_key(CurveKey { time: i64::MAX, value: i32::MAX });
    assert_eq!(wide.value_at(i64::MIN), i32::MIN);
    assert_eq!(wide.value_at(i64::MAX), i32::MAX);
    assert_eq!(wide.value_at(-1), -1);
    assert_eq!(wide.value_at(0), -1);
}

#[test]
fn keys_are_kept_in_order_of_time() {
    let mut curve = Curve::new();
    curve.add_key(CurveKey { time: 30, value: 3 });
    curve.add_key(CurveKey { time: 10, value: 1 });
    curve.add_key(CurveKey { time: 20, value: 2 });
    curve.add_key(CurveKey { time: 10, value: 5 });
    assert_eq!(curve.len(), 3);
    assert_eq!(curve.key(0), Some(CurveKey { time: 10, value: 5 }));
    assert_eq!(curve.key(1), Some(CurveKey { time: 20, value: 2 }));
    assert_eq!(curve.key(2), Some(CurveKey { time: 30, value: 3 }));
    assert_eq!(curve.key(3), None);
}

#[test]
fn tracks_write_the_axis_they_are_bound_to() {
    let mut graph = Graph::new();
    let a = graph.add_node(pivot_at(1, 2, 3));
    let b = graph.add_node(pivot_at(4, 5, 6));
    let mut flat = Curve::new();
    flat.add_key(CurveKey { time: 0, value: 42 });
    let mut ramp = Curve::new();
    ramp.add_key(CurveKey { time: 0, value: 0 });
    ramp.add_key(CurveKey { time: 10, value: -100 });
    let mut moved = Track::new(a, Axis::Z, ramp);
    moved.set_target(b);
    let mut animation = Animation::new();
    animation.add_track(Track::new(a, Axis::X, flat));
    animation.add_track(moved);
    animation.set_time_slice(0, 10);
    let mut animations = AnimationContainer::new();
    animations.add(animation);
    let mut player = AnimationPlayer::default();
    player.set_animations(animations);
    step(&mut player, &mut graph, 3);
    assert_eq!(position(&graph, a), Vector3::new(42, 2, 3));
    assert_eq!(position(&graph, b), Vector3::new(4, 5, -30));
    assert_eq!(Vector3::new(1, 2, 3).with(Axis::Y, 9).get(Axis::Y), 9);
}

#[test]
fn graph_reuses_places_under_new_generations() {
    let mut graph = Graph::new();
    let a = graph.add_node(pivot_at(1, 0, 0));
    let b = graph.add_node(pivot_at(2, 0, 0));
    assert_eq!(a, Handle::new(0, 1));
    assert_eq!(b, Handle::new(1, 1));
    assert!(graph.remove_node(a).is_some());
    assert!(graph.remove_node(a).is_none());
    let c = graph.add_node(pivot_at(3, 0, 0));
    assert_eq!(c, Handle::new(0, 2));
    assert!(!graph.is_valid_handle(a));
    assert!(graph.is_valid_handle(c));
    assert_eq!(position(&graph, c).x, 3);
    assert_eq!(position(&graph, b).x, 2);
    assert_eq!(graph.capacity(), 2);
}

#[test]
fn write_moves_one_coordinate_of_a_live_node_only() {
    let mut graph = Graph::new();
    let a = graph.add_node(pivot_at(1, 2, 3));
    graph.write(BoundValue { target: a, axis: Axis::X, value: -5 });
    assert_eq!(position(&graph, a), Vector3::new(-5, 2, 3));
    graph.write(BoundValue { target: Handle::new(0, 9), axis: Axis::X, value: 8 });
    graph.write(BoundValue { target: Handle::new(4, 1), axis: Axis::X, value: 8 });
    assert_eq!(position(&graph, a), Vector3::new(-5, 2, 3));
}

#[test]
fn player_can_be_its_own_kind_of_target() {
    let mut graph = Graph::new();
    let other = AnimationPlayerBuilder::new(BaseBuilder::new()).build(&mut graph);
    let mut player = player_of(
        AnimationPlayerBuilder::new(BaseBuilder::new())
            .with_animations(bounce_container(other))
            .build_node(),
    );
    step(&mut player, &mut graph, 100);
    assert_eq!(position(&graph, other), Vector3::new(0, 1000, 0));
}

#[test]
fn graph_steps_a_player_that_it_holds() {
    let mut graph = Graph::new();
    let target = graph.add_node(pivot_at(3, 7, 11));
    let h = AnimationPlayerBuilder::new(BaseBuilder::new())
        .with_animations(bounce_container(target))
        .build(&mut graph);
    let expected: [i32; 6] = [1000, 0, 750, 0, 250, 0];
    for want in expected {
        assert!(graph.update_node(h, 100));
        assert!(graph.is_valid_handle(h));
        assert_eq!(position(&graph, target), Vector3::new(3, want, 11));
    }
    match graph.try_get(h).unwrap() {
        Node::AnimationPlayer(player) => {
            let animation = player.animations().get_value_ref().get(0).unwrap();
            assert_eq!(animation.time_position(), 600);
        }
        Node::Pivot(_) => panic!("a player was stored"),
    }
}

#[test]
fn graph_step_of_a_pivot_or_of_nothing_changes_nothing() {
    let mut graph = Graph::new();
    let pivot = graph.add_node(pivot_at(1, 2, 3));
    assert!(graph.update_node(pivot, 100));
    assert_eq!(position(&graph, pivot), Vector3::new(1, 2, 3));
    assert!(!graph.update_node(Handle::new(0, 2), 100));
    assert!(!graph.update_node(Handle::new(5, 1), 100));
    assert!(!graph.update_node(Handle::none(), 100));
    assert_eq!(position(&graph, pivot), Vector3::new(1, 2, 3));
    assert_eq!(graph.capacity(), 1);
}

#[test]
fn player_cannot_reach_itself_during_its_step() {
    let mut graph = Graph::new();
    let h = AnimationPlayerBuilder::new(
        BaseBuilder::new().with_local_position(Vector3::new(0, 7, 0)),
    )
    .build(&mut graph);
    let mut taken = player_of(graph.remove_node(h).unwrap());
    taken.set_animations(bounce_container(Handle::new(h.index, h.generation + 1)));
    let again = graph.add_node(Node::new(taken));
    assert_eq!(again, Handle::new(h.index, h.generation + 1));
    assert!(graph.update_node(again, 100));
    assert_eq!(position(&graph, again), Vector3::new(0, 7, 0));
    match graph.try_get(again).unwrap() {
        Node::AnimationPlayer(player) => {
            let animation = player.animations().get_value_ref().get(0).unwrap();
            assert_eq!(animation.time_position(), 100);
        }
        Node::Pivot(_) => panic!("a player was stored"),
    }
}

#[test]
fn node_step_goes_by_kind() {
    let mut graph = Graph::new();
    let target = graph.add_node(pivot_at(0, 0, 0));
    let mut pivot = pivot_at(1, 2, 3);
    let mut node = AnimationPlayerBuilder::new(BaseBuilder::new())
        .with_animations(bounce_container(target))
        .build_node();
    let mut context = UpdateContext { dt: 300, nodes: &mut graph };
    pivot.update(&mut context);
    assert_eq!(pivot.base().local_position(), Vector3::new(1, 2, 3));
    assert_eq!(context.nodes.try_get(target).unwrap().base().local_position().y, 0);
    node.update(&mut context);
    assert_eq!(position(&graph, target).y, 750);
    node.set_position_component(Axis::Z, 4);
    assert_eq!(node.base().local_position(), Vector3::new(0, 0, 4));
}

#[test]
fn handle_at_names_filled_places_only() {
    let mut graph = Graph::new();
    let a = graph.add_node(pivot_at(1, 0, 0));
    let b = graph.add_node(pivot_at(2, 0, 0));
    graph.remove_node(a);
    assert_eq!(graph.handle_at(0), Handle::none());
    assert_eq!(graph.handle_at(1), b);
    assert_eq!(graph.handle_at(2), Handle::none());
}

#[test]
fn time_slice_moves_the_clock_inside() {
    let mut animation = Animation::new();
    assert_eq!(animation.time_position(), 0);
    animation.set_time_slice(100, 600);
    assert_eq!(animation.time_position(), 100);
    animation.tick(400);
    assert_eq!(animation.time_position(), 500);
    animation.set_time_slice(0, 300);
    assert_eq!(animation.time_position(), 300);
    animation.set_time_slice(50, 50);
    assert_eq!(animation.time_position(), 50);
    animation.tick(10);
    assert_eq!(animation.time_position(), 50);
}

#[test]
fn pose_is_applied_in_track_order() {
    let mut graph = Graph::new();
    let a = graph.add_node(pivot_at(0, 0, 0));
    let mut first = Curve::new();
    first.add_key(CurveKey { time: 0, value: 1 });
    let mut second = Curve::new();
    second.add_key(CurveKey { time: 0, value: 2 });
    let mut animation = Animation::new();
    animation.add_track(Track::new(a, Axis::X, first));
    animation.add_track(Track::new(a, Axis::X, second));
    animation.tick(0);
    assert_eq!(animation.pose_len(), 2);
    assert_eq!(
        animation.pose_value(1),
        Some(BoundValue { target: a, axis: Axis::X, value: 2 })
    );
    let ramp = Track::new(a, Axis::Z, bounce_curve());
    assert_eq!(ramp.value_at(150), BoundValue { target: a, axis: Axis::Z, value: 500 });
    animation.apply_pose(&mut graph);
    assert_eq!(position(&graph, a), Vector3::new(2, 0, 0));
}

#[test]
fn graph_frame_steps_every_node_once() {
    let mut graph = Graph::new();
    let a = graph.add_node(pivot_at(0, 0, 0));
    let first = AnimationPlayerBuilder::new(BaseBuilder::new())
        .with_animations(bounce_container(a))
        .build(&mut graph);
    let b = graph.add_node(pivot_at(0, 7, 0));
    let second = AnimationPlayerBuilder::new(BaseBuilder::new())
        .with_animations(bounce_container(b))
        .with_auto_apply(false)
        .build(&mut graph);
    graph.update(100);
    assert_eq!(position(&graph, a).y, 1000);
    assert_eq!(position(&graph, b).y, 7);
    graph.update(50);
    assert_eq!(position(&graph, a).y, 500);
    assert_eq!(position(&graph, b).y, 7);
    for h in [first, second] {
        match graph.try_get(h).unwrap() {
            Node::AnimationPlayer(player) => {
                let animation = player.animations().get_value_ref().get(0).unwrap();
                assert_eq!(animation.time_position(), 150);
            }
            Node::Pivot(_) => panic!("a player was stored"),
        }
    }
    assert_eq!(graph.capacity(), 4);
    let mut empty = Graph::new();
    empty.update(100);
    assert_eq!(empty.capacity(), 0);
}

#[test]
fn later_player_overwrites_earlier_in_one_frame() {
    let mut graph = Graph::new();
    let a = graph.add_node(pivot_at(0, 0, 0));
    let mut low = Curve::new();
    low.add_key(CurveKey { time: 0, value: 1 });
    let mut high = Curve::new();
    high.add_key(CurveKey { time: 0, value: 2 });
    for curve in [low, high] {
        let mut animation = Animation::new();
        animation.add_track(Track::new(a, Axis::Y, curve));
        let mut animations = AnimationContainer::new();
        animations.add(animation);
        AnimationPlayerBuilder::new(BaseBuilder::new())
            .with_animations(animations)
            .build(&mut graph);
    }
    graph.update(0);
    assert_eq!(position(&graph, a).y, 2);
}

#[test]
fn player_reads_and_writes_as_its_base() {
    let mut player = player_of(
        AnimationPlayerBuilder::new(
            BaseBuilder::new().with_local_position(Vector3::new(1, 2, 3)),
        )
        .build_node(),
    );
    assert_eq!(player.local_position(), Vector3::new(1, 2, 3));
    player.set_local_position(Vector3::new(4, 5, 6));
    assert_eq!(player.base().local_position(), Vector3::new(4, 5, 6));
    assert!(player.is_auto_apply());
    assert_eq!(player.animations().get_value_ref().len(), 0);
}

#[test]
fn clone_keeps_what_a_player_holds() {
    let mut graph = Graph::new();
    let target = graph.add_node(pivot_at(0, 0, 0));
    let mut player = player_of(
        AnimationPlayerBuilder::new(BaseBuilder::new())
            .with_animations(bounce_container(target))
            .with_auto_apply(false)
            .build_node(),
    );
    step(&mut player, &mut graph, 100);
    let copy = player.clone();
    step(&mut player, &mut graph, 100);
    assert!(!copy.is_auto_apply());
    assert_eq!(copy.animations().get_value_ref().get(0).unwrap().time_position(), 100);
    assert_eq!(player.animations().get_value_ref().get(0).unwrap().time_position(), 200);
}

#[test]
fn node_restore_resources_changes_nothing() {
    let mut pivot = pivot_at(1, 2, 3);
    pivot.restore_resources(ResourceManager {});
    assert_eq!(pivot.base().local_position(), Vector3::new(1, 2, 3));
    let mut node = AnimationPlayerBuilder::new(BaseBuilder::new())
        .with_auto_apply(false)
        .build_node();
    node.restore_resources(ResourceManager {});
    node.restore_resources(ResourceManager {});
    let player = player_of(node);
    assert!(!player.is_auto_apply());
    assert_eq!(*player.base(), Base::default());
}

#[test]
fn container_hands_out_animations_by_index() {
    let mut animations = AnimationContainer::new();
    assert_eq!(animations.len(), 0);
    assert!(animations.get(0).is_none());
    let mut first = Animation::new();
    first.set_time_slice(5, 9);
    assert_eq!(animations.add(first), 0);
    assert_eq!(animations.add(Animation::new()), 1);
    assert_eq!(animations.len(), 2);
    assert_eq!(animations.get(0).unwrap().time_position(), 5);
    assert_eq!(animations.get(1).unwrap().time_position(), 0);
    assert!(animations.get(2).is_none());
}

#[test]
fn inverted_time_slice_holds_the_clock_at_its_start() {
    let mut animation = Animation::new();
    animation.set_time_slice(9, 5);
    assert_eq!(animation.time_position(), 9);
    animation.tick(3);
    assert_eq!(animation.time_position(), 9);
    animation.tick(-30);
    assert_eq!(animation.time_position(), 9);
}

#[test]
fn curve_clone_has_the_same_keys() {
    let curve = bounce_curve();
    let copy = curve.clone();
    assert_eq!(copy.len(), 6);
    for index in 0..7 {
        assert_eq!(copy.key(index), curve.key(index));
    }
    assert_eq!(copy.value_at(250), 375);
}
