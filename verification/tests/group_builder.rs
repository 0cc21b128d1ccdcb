use superscrub::anim_builder::AnimBuilder;
use superscrub::clip_builder::{ClipBuilder, ClipParams};
use superscrub::group_builder::{group_from_clips, time_span, GroupBuilder, GroupParams};
use superscrub::model::{AnimatableProperty, ItemContent, ItemDef, Sizing};
use superscrub::seconds::{Scalar, Seconds};

fn s(x: f64) -> Seconds {
    Seconds::from_bits(x.to_bits())
}

fn v(x: f32) -> Scalar {
    Scalar::from_bits(x.to_bits())
}

fn secs(t: Seconds) -> f64 {
    f64::from_bits(t.bits)
}

fn val(x: Scalar) -> f32 {
    f32::from_bits(x.bits)
}

fn text(t: Seconds) -> String {
    format!("{}", secs(t))
}

fn plus(offset: f64) -> impl Fn(Seconds) -> Seconds {
    move |t: Seconds| s(secs(t) + offset)
}

/// Creates a minimal image `ItemDef` for test reuse.
fn image_item(id: &str, start: f64, end: f64) -> ItemDef {
    ItemDef {
        id: id.to_string(),
        content: ItemContent::Image { path: "test.png".to_string() },
        track: 0,
        start_time: s(start),
        end_time: s(end),
        z_index: 0,
        sizing: Sizing::Natural,
        pivot: [v(0.5), v(0.5)],
        animations: vec![],
    }
}

fn clip(id: &str, path: &str, start: f64, end: f64) -> ClipBuilder {
    let mut params = ClipParams::new(id, path, s(end));
    params.start_time = s(start);
    ClipBuilder::new(params)
}

#[test]
fn build_minimal_group_with_required_fields() {
    let params = GroupParams::new("grp", vec![image_item("c1", 0.0, 5.0)], s(5.0));

    let item = GroupBuilder::new(params).build(&text).unwrap();

    assert_eq!(item.id, "grp");
    assert!(matches!(item.content, ItemContent::Group { .. }));
    assert_eq!(item.track, 0);
    assert_eq!(secs(item.start_time), 0.0);
    assert_eq!(secs(item.end_time), 5.0);
    assert_eq!(item.z_index, 0);
    assert_eq!([val(item.pivot[0]), val(item.pivot[1])], [0.5, 0.5]);
    assert!(item.animations.is_empty());
}

#[test]
fn build_group_with_all_optional_fields() {
    let mut params = GroupParams::new("grp", vec![image_item("c1", 0.0, 5.0)], s(15.0));
    params.track = 2;
    params.start_time = s(1.0);
    params.z_index = 10;
    params.pivot = [v(0.0), v(1.0)];

    let item = GroupBuilder::new(params).build(&text).unwrap();

    assert_eq!(item.track, 2);
    assert_eq!(secs(item.start_time), 1.0);
    assert_eq!(secs(item.end_time), 15.0);
    assert_eq!(item.z_index, 10);
    assert_eq!([val(item.pivot[0]), val(item.pivot[1])], [0.0, 1.0]);
}

#[test]
fn build_group_with_animations() {
    let params = GroupParams::new("grp", vec![image_item("c1", 0.0, 5.0)], s(5.0));
    let anim1 = AnimBuilder::opacity().keyframe(s(0.0), v(0.0)).keyframe(s(3.0), v(1.0));
    let anim2 = AnimBuilder::scale_x().keyframe(s(0.0), v(1.0));

    let item = GroupBuilder::new(params).add_animation(anim1).add_animation(anim2).build(&text).unwrap();

    assert_eq!(item.animations.len(), 2);
    assert_eq!(item.animations[0].property, AnimatableProperty::Opacity);
    assert_eq!(item.animations[1].property, AnimatableProperty::ScaleX);
}

#[test]
fn build_group_with_empty_children_produces_error() {
    let params = GroupParams::new("empty", vec![], s(5.0));

    let result = GroupBuilder::new(params).build(&text);

    let errors = result.expect_err("should fail with empty children");
    let msg = errors.iter().next().unwrap().to_string();
    assert!(msg.contains("group \"empty\""), "error should mention group: {msg}");
    assert!(msg.contains("at least one child"), "error should describe empty children: {msg}");
}

#[test]
fn build_group_with_invalid_time_range() {
    let mut params = GroupParams::new("bad-time", vec![image_item("c1", 0.0, 5.0)], s(5.0));
    params.start_time = s(10.0);

    let result = GroupBuilder::new(params).build(&text);

    let errors = result.expect_err("should fail with invalid time range");
    let msg = errors.iter().next().unwrap().to_string();
    assert!(msg.contains("end_time must be greater than start_time"), "error should describe time issue: {msg}");
}

#[test]
fn build_group_with_child_exceeding_end_time() {
    let params = GroupParams::new("overflow", vec![image_item("c1", 0.0, 15.0)], s(10.0));

    let result = GroupBuilder::new(params).build(&text);

    let errors = result.expect_err("should fail with child exceeding group time");
    let msg = errors.iter().next().unwrap().to_string();
    assert!(msg.contains("child \"c1\""), "error should mention child: {msg}");
    assert!(msg.contains("exceeds group end_time"), "error should describe overflow: {msg}");
}

#[test]
fn build_group_with_empty_animation_produces_error() {
    let params = GroupParams::new("grp", vec![image_item("c1", 0.0, 5.0)], s(5.0));
    let anim = AnimBuilder::opacity();

    let result = GroupBuilder::new(params).add_animation(anim).build(&text);

    let errors = result.expect_err("should fail with empty animation");
    let msg = errors.iter().next().unwrap().to_string();
    assert!(msg.contains("group \"grp\""), "error should mention group: {msg}");
    assert!(msg.contains("animation \"opacity\""), "error should mention property: {msg}");
    assert!(msg.contains("no keyframes"), "error should describe issue: {msg}");
}

#[test]
fn build_group_collects_multiple_errors() {
    let mut params = GroupParams::new("multi", vec![], s(5.0));
    params.start_time = s(10.0);

    let result = GroupBuilder::new(params).add_animation(AnimBuilder::opacity()).build(&text);

    let errors = result.expect_err("should fail with multiple errors");
    let messages: Vec<String> = errors.iter().map(|e| e.to_string()).collect();
    assert!(messages.len() >= 3, "should have at least 3 errors: {messages:?}");
    let combined = messages.join("; ");
    assert!(combined.contains("end_time must be greater than start_time"), "should mention time error: {combined}");
    assert!(combined.contains("at least one child"), "should mention empty children: {combined}");
    assert!(combined.contains("no keyframes"), "should mention keyframe error: {combined}");
}

#[test]
fn with_offset_shifts_group_times_and_children() {
    let params = GroupParams::new("shift", vec![image_item("c1", 2.0, 8.0)], s(10.0));

    let item = GroupBuilder::new(params).with_offset(&plus(5.0)).build(&text).unwrap();

    assert_eq!(secs(item.start_time), 5.0);
    assert_eq!(secs(item.end_time), 15.0);

    let ItemContent::Group { children } = &item.content else { panic!("expected group") };
    assert_eq!(secs(children[0].start_time), 7.0);
    assert_eq!(secs(children[0].end_time), 13.0);
}

#[test]
fn with_offset_shifts_animation_keyframes() {
    let params = GroupParams::new("anim-shift", vec![image_item("c1", 0.0, 5.0)], s(5.0));
    let anim = AnimBuilder::opacity().keyframe(s(0.0), v(0.0)).keyframe(s(3.0), v(1.0));

    let item = GroupBuilder::new(params).add_animation(anim).with_offset(&plus(10.0)).build(&text).unwrap();

    assert_eq!(secs(item.start_time), 10.0);
    assert_eq!(secs(item.end_time), 15.0);
    assert_eq!(secs(item.animations[0].keyframes[0].time), 10.0);
    assert_eq!(secs(item.animations[0].keyframes[1].time), 13.0);
}

#[test]
fn with_offset_with_zero_offset_is_identity() {
    let params = GroupParams::new("identity", vec![image_item("c1", 2.0, 8.0)], s(10.0));
    let anim = AnimBuilder::scale_x().keyframe(s(3.0), v(2.0));

    let item = GroupBuilder::new(params).add_animation(anim).with_offset(&plus(0.0)).build(&text).unwrap();

    assert_eq!(secs(item.start_time), 0.0);
    assert_eq!(secs(item.end_time), 10.0);
    assert_eq!(secs(item.animations[0].keyframes[0].time), 3.0);
    let ItemContent::Group { children } = &item.content else { panic!("expected group") };
    assert_eq!(secs(children[0].start_time), 2.0);
    assert_eq!(secs(children[0].end_time), 8.0);
}

#[test]
fn group_from_clips_with_single_clip() {
    let clip = ClipBuilder::new(ClipParams::new("bg", "bg.png", s(10.0)));

    let params = group_from_clips("grp", vec![clip]).unwrap();

    assert_eq!(params.id, "grp");
    assert_eq!(params.children.len(), 1);
    assert_eq!(params.children[0].id, "bg");
    assert_eq!(secs(params.start_time), 0.0);
    assert_eq!(secs(params.end_time), 10.0);
}

#[test]
fn group_from_clips_computes_time_range_from_children() {
    let clip1 = clip("a", "a.png", 2.0, 8.0);
    let clip2 = clip("b", "b.png", 0.0, 10.0);

    let params = group_from_clips("grp", vec![clip1, clip2]).unwrap();

    assert_eq!(secs(params.start_time), 0.0);
    assert_eq!(secs(params.end_time), 10.0);
    assert_eq!(params.children.len(), 2);
}

#[test]
fn group_from_clips_with_empty_clips_produces_error() {
    let result = group_from_clips("empty", Vec::<ClipBuilder>::new());

    let errors = result.expect_err("should fail with empty clips");
    let msg = errors.iter().next().unwrap().to_string();
    assert!(msg.contains("at least one clip"), "error should describe requirement: {msg}");
}

#[test]
fn group_from_clips_propagates_clip_build_errors() {
    let bad_clip = clip("bad", "img.png", 10.0, 5.0);

    let result = group_from_clips("grp", vec![bad_clip]);

    let errors = result.expect_err("should fail with clip error");
    let msg = errors.iter().next().unwrap().to_string();
    assert!(msg.contains("end_time must be greater than start_time"), "error should propagate clip error: {msg}");
}

#[test]
fn bon_builder_accepts_string_into_for_id() {
    let params = GroupParams::new("test", vec![image_item("c1", 0.0, 5.0)], s(5.0));

    let item = GroupBuilder::new(params).build(&text).unwrap();

    assert_eq!(item.id, "test");
}

#[test]
fn group_children_are_accessible_via_content() {
    let params = GroupParams::new("grp", vec![image_item("a", 0.0, 5.0), image_item("b", 0.0, 5.0)], s(5.0));

    let item = GroupBuilder::new(params).build(&text).unwrap();

    match &item.content {
        ItemContent::Group { children } => {
            assert_eq!(children.len(), 2);
            assert_eq!(children[0].id, "a");
            assert_eq!(children[1].id, "b");
        },
        _ => panic!("expected group content"),
    }
}

#[test]
fn params_returns_original_params() {
    let mut params = GroupParams::new("peek", vec![image_item("c1", 0.0, 7.0)], s(7.0));
    params.z_index = 3;
    let builder = GroupBuilder::new(params);

    let p = builder.params();

    assert_eq!(p.id, "peek");
    assert_eq!(p.z_index, 3);
    assert_eq!(secs(p.end_time), 7.0);
}

#[test]
fn child_overflow_message_quotes_both_times() {
    let params = GroupParams::new("g", vec![image_item("late", 0.0, 12.5)], s(10.0));
    let errors = GroupBuilder::new(params).build(&text).unwrap_err();
    assert_eq!(errors.len(), 1);
    assert_eq!(
        errors.iter().next().unwrap().to_string(),
        "group \"g\": child \"late\" end_time (12.5) exceeds group end_time (10)"
    );
}

#[test]
fn group_with_offset_moves_nested_group_children() {
    let inner = GroupBuilder::new(GroupParams::new("inner", vec![image_item("leaf", 1.0, 2.0)], s(3.0)))
        .build(&text)
        .unwrap();
    let outer = GroupBuilder::new(GroupParams::new("outer", vec![inner], s(3.0)))
        .with_offset(&plus(1.0))
        .build(&text)
        .unwrap();
    let ItemContent::Group { children } = &outer.content else { panic!("expected group") };
    let ItemContent::Group { children: leaves } = &children[0].content else { panic!("expected nested group") };
    assert_eq!(secs(children[0].end_time), 4.0);
    assert_eq!(secs(leaves[0].start_time), 2.0);
    assert_eq!(secs(leaves[0].end_time), 3.0);
}

#[test]
fn time_span_takes_earliest_start_and_latest_end() {
    let items = vec![image_item("a", 3.0, 4.0), image_item("b", 1.0, 2.0), image_item("c", 2.0, 9.0)];
    let (start, end) = time_span(&items);
    assert_eq!(secs(start), 1.0);
    assert_eq!(secs(end), 9.0);
}

#[test]
fn time_span_ignores_nan_times() {
    let items = vec![image_item("a", f64::NAN, 4.0), image_item("b", 2.0, f64::NAN)];
    let (start, end) = time_span(&items);
    assert_eq!(secs(start), 2.0);
    assert_eq!(secs(end), 4.0);
}

#[test]
fn time_span_of_no_items_is_empty_range() {
    let (start, end) = time_span(&vec![]);
    assert_eq!(secs(start), f64::INFINITY);
    assert_eq!(secs(end), f64::NEG_INFINITY);
}

#[test]
fn moving_before_or_after_build_agrees() {
    let make = || {
        clip("c", "c.png", 1.0, 3.0).add_animation(AnimBuilder::opacity().keyframe(s(1.5), v(1.0)))
    };
    let moved_then_built = make().with_offset(&plus(2.5)).build().unwrap();
    let built_then_moved = make().build().unwrap().with_time_offset(&plus(2.5));
    assert_eq!(moved_then_built, built_then_moved);
    assert_eq!(secs(moved_then_built.start_time), 3.5);
    assert_eq!(secs(moved_then_built.animations[0].keyframes[0].time), 4.0);
}

#[test]
fn group_with_nan_start_is_rejected() {
    let mut params = GroupParams::new("g", vec![image_item("c1", 0.0, 5.0)], s(10.0));
    params.start_time = s(f64::NAN);
    let errors = GroupBuilder::new(params).build(&text).unwrap_err();
    assert_eq!(errors.len(), 1);
    assert!(errors.to_string().contains("end_time must be greater than start_time"));
}

#[test]
fn group_child_with_nan_end_is_reported() {
    let params = GroupParams::new("g", vec![image_item("c1", 0.0, f64::NAN)], s(10.0));
    let errors = GroupBuilder::new(params).build(&text).unwrap_err();
    assert_eq!(
        errors.iter().next().unwrap().to_string(),
        "group \"g\": child \"c1\" end_time (NaN) exceeds group end_time (10)"
    );
}
