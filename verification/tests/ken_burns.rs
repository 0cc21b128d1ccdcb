use superscrub::clip_builder::{ClipBuilder, ClipParams};
use superscrub::ken_burns::{
    compute_segment_timings, direction_to_keyframes, total_segment_time, DirectionKeyframes, FocalOffsets, KenBurnsBuilder,
    KenBurnsDirection, KenBurnsParams, KenBurnsSegmentParams, PanAmounts,
};
use superscrub::model::{AnimatableProperty, AnimationTrack, Easing, ItemDef};
use superscrub::opacity::opacity;
use superscrub::project_builder::{ProjectBuilder, ProjectParams};
use superscrub::seconds::{Scalar, Seconds};

fn s(x: f64) -> Seconds {
    Seconds::from_bits(x.to_bits())
}

fn v(x: f32) -> Scalar {
    Scalar::from_bits(x.to_bits())
}

fn secs(t: Seconds) -> f64 {
    f64::from_bits(t.bits)
}

fn val(x: Scalar) -> f32 {
    f32::from_bits(x.bits)
}

fn text(t: Seconds) -> String {
    format!("{}", secs(t))
}

fn one_decimal(t: Seconds) -> String {
    format!("{:.1}", secs(t))
}

/// Binary64 addition of two times.
fn sum(a: Seconds, b: Seconds) -> Seconds {
    s(secs(a) + secs(b))
}

/// Pan distance: the fraction times the axis length, in binary32.
fn pan(fraction: Scalar, length: u32) -> Scalar {
    v(val(fraction) * length as f32)
}

/// Focal translation `(0.5 - fraction) × length × zoom`, in binary32.
fn offset(fraction: Scalar, length: u32, zoom: Scalar) -> Scalar {
    v((0.5 - val(fraction)) * length as f32 * val(zoom))
}

fn build(builder: KenBurnsBuilder) -> Vec<ClipBuilder> {
    builder.build(&sum, &pan, &offset)
}

fn build_all(builder: KenBurnsBuilder) -> Vec<ItemDef> {
    build(builder).into_iter().map(|c| c.build().unwrap()).collect()
}

fn focal(start: [f32; 2], end: [f32; 2]) -> KenBurnsDirection {
    KenBurnsDirection::FocalPoint { start: [v(start[0]), v(start[1])], end: [v(end[0]), v(end[1])] }
}

/// Maps a direction as the effect does for one segment.
fn map(dir: &KenBurnsDirection, pan_fraction: f32, res: [u32; 2], zoom_start: f32, zoom_end: f32) -> DirectionKeyframes {
    let amounts = PanAmounts { x: pan(v(pan_fraction), res[0]), y: pan(v(pan_fraction), res[1]) };
    let offsets = match dir {
        KenBurnsDirection::FocalPoint { start, end } => FocalOffsets {
            x_start: offset(start[0], res[0], v(zoom_start)),
            x_end: offset(end[0], res[0], v(zoom_end)),
            y_start: offset(start[1], res[1], v(zoom_start)),
            y_end: offset(end[1], res[1], v(zoom_end)),
        },
        _ => FocalOffsets { x_start: v(0.0), x_end: v(0.0), y_start: v(0.0), y_end: v(0.0) },
    };
    direction_to_keyframes(dir, amounts, offsets, v(zoom_start), v(zoom_end))
}

fn pair(p: Option<(Scalar, Scalar)>) -> (f32, f32) {
    let (a, b) = p.unwrap();
    (val(a), val(b))
}

fn default_params() -> KenBurnsParams {
    KenBurnsParams::new(s(30.0), [1920, 1080])
}

fn timed_params(hold: f64, fade: f64) -> KenBurnsParams {
    let mut params = default_params();
    params.default_hold_duration = s(hold);
    params.default_fade_duration = s(fade);
    params
}

fn minimal_segment(path: &str, direction: KenBurnsDirection) -> KenBurnsSegmentParams {
    KenBurnsSegmentParams::new(path, direction)
}

fn track(item: &ItemDef, property: AnimatableProperty) -> &AnimationTrack {
    item.animations.iter().find(|a| a.property == property).unwrap()
}

const RES_1920X1080: [u32; 2] = [1920, 1080];
const PAN_FRACTION: f32 = 0.1;

// ---------------------------------------------------------------------------
// Builder
// ---------------------------------------------------------------------------

#[test]
fn single_segment_produces_one_clip() {
    let clips = build(
        KenBurnsBuilder::new(default_params())
            .add_segment(minimal_segment("img1.png", KenBurnsDirection::ZoomInCenter)),
    );

    assert_eq!(clips.len(), 1);
    let clip = clips.into_iter().next().unwrap().build().unwrap();
    assert_eq!(clip.id, "ken_burns_0");
    assert_eq!(clip.z_index, 0);
    assert_eq!(secs(clip.start_time), 0.0);
    assert_eq!(secs(clip.end_time), 30.0);
}

#[test]
fn three_segments_descending_z_index() {
    let clips = build(
        KenBurnsBuilder::new(default_params())
            .add_segment(minimal_segment("img1.png", KenBurnsDirection::ZoomInCenter))
            .add_segment(minimal_segment("img2.png", KenBurnsDirection::ZoomInCenter))
            .add_segment(minimal_segment("img3.png", KenBurnsDirection::ZoomInCenter)),
    );

    assert_eq!(clips.len(), 3);
    let built: Vec<_> = clips.into_iter().map(|cb| cb.build().unwrap()).collect();

    assert_eq!(built[0].z_index, 2);
    assert_eq!(built[1].z_index, 1);
    assert_eq!(built[2].z_index, 0);
}

#[test]
fn each_clip_has_scale_and_opacity_animations() {
    let built = build_all(
        KenBurnsBuilder::new(default_params())
            .add_segment(minimal_segment("img1.png", KenBurnsDirection::ZoomInCenter)),
    );

    let props: Vec<_> = built[0].animations.iter().map(|a| a.property).collect();
    assert!(props.contains(&AnimatableProperty::ScaleX));
    assert!(props.contains(&AnimatableProperty::ScaleY));
    assert!(props.contains(&AnimatableProperty::Opacity));
}

#[test]
fn center_direction_no_translate() {
    let built = build_all(
        KenBurnsBuilder::new(default_params())
            .add_segment(minimal_segment("img1.png", KenBurnsDirection::ZoomInCenter)),
    );

    assert!(built[0]
        .animations
        .iter()
        .all(|a| a.property != AnimatableProperty::TranslateX && a.property != AnimatableProperty::TranslateY));
}

#[test]
fn non_center_direction_has_translate() {
    let built = build_all(
        KenBurnsBuilder::new(default_params()).add_segment(minimal_segment("img1.png", KenBurnsDirection::ZoomInLeft)),
    );

    assert!(built[0].animations.iter().any(|a| a.property == AnimatableProperty::TranslateX));
}

#[test]
fn opacity_keyframes_hold_then_fade() {
    let built = build_all(
        KenBurnsBuilder::new(timed_params(5.0, 2.0))
            .add_segment(minimal_segment("img1.png", KenBurnsDirection::ZoomInCenter)),
    );

    let opacity = track(&built[0], AnimatableProperty::Opacity);
    assert_eq!(opacity.keyframes.len(), 2);
    assert_eq!(secs(opacity.keyframes[0].time), 5.0);
    assert_eq!(val(opacity.keyframes[0].value), 1.0);
    assert_eq!(secs(opacity.keyframes[1].time), 7.0);
    assert_eq!(val(opacity.keyframes[1].value), 0.0);
}

#[test]
fn per_segment_zoom_override() {
    let mut seg = minimal_segment("img1.png", KenBurnsDirection::ZoomInCenter);
    seg.zoom_start = Some(v(0.5));
    seg.zoom_end = Some(v(2.0));

    let built = build_all(KenBurnsBuilder::new(default_params()).add_segment(seg));

    let scale_x = track(&built[0], AnimatableProperty::ScaleX);
    assert_eq!(val(scale_x.keyframes[0].value), 0.5);
    assert_eq!(val(scale_x.keyframes[1].value), 2.0);
}

#[test]
fn multi_segment_scale_keyframes_scoped_to_visibility_window() {
    let built = build_all(
        KenBurnsBuilder::new(timed_params(5.0, 2.0))
            .add_segment(minimal_segment("img1.png", KenBurnsDirection::ZoomInCenter))
            .add_segment(minimal_segment("img2.png", KenBurnsDirection::ZoomInCenter))
            .add_segment(minimal_segment("img3.png", KenBurnsDirection::ZoomInCenter)),
    );

    let scale_0 = track(&built[0], AnimatableProperty::ScaleX);
    assert_eq!(secs(scale_0.keyframes[0].time), 0.0);
    assert_eq!(secs(scale_0.keyframes[1].time), 7.0);

    let scale_1 = track(&built[1], AnimatableProperty::ScaleX);
    assert_eq!(secs(scale_1.keyframes[0].time), 7.0);
    assert_eq!(secs(scale_1.keyframes[1].time), 14.0);

    let scale_2 = track(&built[2], AnimatableProperty::ScaleX);
    assert_eq!(secs(scale_2.keyframes[0].time), 14.0);
    assert_eq!(secs(scale_2.keyframes[1].time), 21.0);
}

#[test]
fn multi_segment_translate_scoped_to_visibility_window() {
    let built = build_all(
        KenBurnsBuilder::new(timed_params(5.0, 2.0))
            .add_segment(minimal_segment("img1.png", KenBurnsDirection::ZoomInLeft))
            .add_segment(minimal_segment("img2.png", KenBurnsDirection::ZoomInLeft)),
    );

    let tx_0 = track(&built[0], AnimatableProperty::TranslateX);
    assert_eq!(secs(tx_0.keyframes[0].time), 0.0);
    assert_eq!(secs(tx_0.keyframes[1].time), 7.0);

    let tx_1 = track(&built[1], AnimatableProperty::TranslateX);
    assert_eq!(secs(tx_1.keyframes[0].time), 7.0);
    assert_eq!(secs(tx_1.keyframes[1].time), 14.0);
}

#[test]
fn per_segment_hold_fade_override() {
    let mut seg = minimal_segment("img1.png", KenBurnsDirection::ZoomInCenter);
    seg.hold_duration = Some(s(3.0));
    seg.fade_duration = Some(s(1.0));

    let built = build_all(KenBurnsBuilder::new(default_params()).add_segment(seg));

    let opacity = track(&built[0], AnimatableProperty::Opacity);
    assert_eq!(secs(opacity.keyframes[0].time), 3.0);
    assert_eq!(secs(opacity.keyframes[1].time), 4.0);
}

#[test]
fn defaults_fallback_to_builder_level() {
    let mut params = timed_params(7.0, 3.0);
    params.default_zoom_start = v(0.8);
    params.default_zoom_end = v(1.5);
    params.default_pan_fraction = v(0.2);
    params.default_easing = Easing::Linear;

    let built = build_all(
        KenBurnsBuilder::new(params).add_segment(minimal_segment("img1.png", KenBurnsDirection::ZoomInCenter)),
    );

    let opacity = track(&built[0], AnimatableProperty::Opacity);
    assert_eq!(secs(opacity.keyframes[0].time), 7.0);
    assert_eq!(secs(opacity.keyframes[1].time), 10.0);
    assert_eq!(opacity.keyframes[0].easing, Easing::Linear);
}

#[test]
fn empty_builder_returns_empty_vec() {
    let clips = build(KenBurnsBuilder::new(default_params()));

    assert!(clips.is_empty());
}

#[test]
fn focal_point_direction_produces_both_translates() {
    let seg = minimal_segment("img1.png", focal([0.0, 0.0], [1.0, 1.0]));

    let built = build_all(KenBurnsBuilder::new(default_params()).add_segment(seg));

    assert!(built[0].animations.iter().any(|a| a.property == AnimatableProperty::TranslateX));
    assert!(built[0].animations.iter().any(|a| a.property == AnimatableProperty::TranslateY));
}

#[test]
fn base_z_index_offsets_all_clips() {
    let mut params = default_params();
    params.base_z_index = 10;

    let built = build_all(
        KenBurnsBuilder::new(params)
            .add_segment(minimal_segment("img1.png", KenBurnsDirection::ZoomInCenter))
            .add_segment(minimal_segment("img2.png", KenBurnsDirection::ZoomInCenter)),
    );

    assert_eq!(built[0].z_index, 11);
    assert_eq!(built[1].z_index, 10);
}

#[test]
fn default_params_match_documented_defaults() {
    let params = default_params();
    assert_eq!(secs(params.default_hold_duration), 10.0);
    assert_eq!(secs(params.default_fade_duration), 2.0);
    assert_eq!(val(params.default_zoom_start), 1.0);
    assert_eq!(val(params.default_zoom_end), 1.3);
    assert_eq!(val(params.default_pan_fraction), 0.1);
    assert_eq!(params.default_easing, Easing::SineInOut);
    assert_eq!(params.base_z_index, 0);
}

#[test]
fn clips_cover_the_resolution_from_the_center() {
    let built = build_all(
        KenBurnsBuilder::new(default_params()).add_segment(minimal_segment("a.png", KenBurnsDirection::ZoomOutUp)),
    );
    assert_eq!(built[0].sizing, superscrub::clip_builder::fit_rect_cover(0, 0, 1920, 1080));
    let ty = track(&built[0], AnimatableProperty::TranslateY);
    assert_eq!(val(ty.keyframes[0].value), 108.0);
    assert_eq!(val(ty.keyframes[1].value), 0.0);
    assert_eq!(ty.keyframes[0].easing, Easing::SineInOut);
}

// ---------------------------------------------------------------------------
// Direction mapping
// ---------------------------------------------------------------------------

#[test]
fn zoom_in_center_no_translate() {
    let kf = map(&KenBurnsDirection::ZoomInCenter, PAN_FRACTION, RES_1920X1080, 1.0, 1.3);

    assert!(kf.translate_x.is_none());
    assert!(kf.translate_y.is_none());
    assert_eq!(val(kf.scale_start), 1.0);
    assert_eq!(val(kf.scale_end), 1.3);
}

#[test]
fn zoom_out_center_no_translate() {
    let kf = map(&KenBurnsDirection::ZoomOutCenter, PAN_FRACTION, RES_1920X1080, 1.0, 1.3);

    assert!(kf.translate_x.is_none());
    assert!(kf.translate_y.is_none());
    assert_eq!(val(kf.scale_start), 1.3);
    assert_eq!(val(kf.scale_end), 1.0);
}

#[test]
fn zoom_in_left_pans_positive_x() {
    let kf = map(&KenBurnsDirection::ZoomInLeft, PAN_FRACTION, RES_1920X1080, 1.0, 1.3);

    let (tx_start, tx_end) = pair(kf.translate_x);
    assert_eq!(tx_start, 0.0);
    assert_eq!(tx_end, 192.0);
    assert!(kf.translate_y.is_none());
}

#[test]
fn zoom_in_right_pans_negative_x() {
    let kf = map(&KenBurnsDirection::ZoomInRight, PAN_FRACTION, RES_1920X1080, 1.0, 1.3);

    let (tx_start, tx_end) = pair(kf.translate_x);
    assert_eq!(tx_start, 0.0);
    assert_eq!(tx_end, -192.0);
}

#[test]
fn zoom_in_up_pans_positive_y() {
    let kf = map(&KenBurnsDirection::ZoomInUp, PAN_FRACTION, RES_1920X1080, 1.0, 1.3);

    let (ty_start, ty_end) = pair(kf.translate_y);
    assert_eq!(ty_start, 0.0);
    assert_eq!(ty_end, 108.0);
}

#[test]
fn zoom_in_down_pans_negative_y() {
    let kf = map(&KenBurnsDirection::ZoomInDown, PAN_FRACTION, RES_1920X1080, 1.0, 1.3);

    let (ty_start, ty_end) = pair(kf.translate_y);
    assert_eq!(ty_start, 0.0);
    assert_eq!(ty_end, -108.0);
}

#[test]
fn zoom_out_left_starts_positive_x() {
    let kf = map(&KenBurnsDirection::ZoomOutLeft, PAN_FRACTION, RES_1920X1080, 1.0, 1.3);

    let (tx_start, tx_end) = pair(kf.translate_x);
    assert_eq!(tx_start, 192.0);
    assert_eq!(tx_end, 0.0);
}

#[test]
fn zoom_out_right_starts_negative_x() {
    let kf = map(&KenBurnsDirection::ZoomOutRight, PAN_FRACTION, RES_1920X1080, 1.0, 1.3);

    let (tx_start, tx_end) = pair(kf.translate_x);
    assert_eq!(tx_start, -192.0);
    assert_eq!(tx_end, 0.0);
}

#[test]
fn zoom_out_up_starts_positive_y() {
    let kf = map(&KenBurnsDirection::ZoomOutUp, PAN_FRACTION, RES_1920X1080, 1.0, 1.3);

    let (ty_start, ty_end) = pair(kf.translate_y);
    assert_eq!(ty_start, 108.0);
    assert_eq!(ty_end, 0.0);
}

#[test]
fn zoom_out_down_starts_negative_y() {
    let kf = map(&KenBurnsDirection::ZoomOutDown, PAN_FRACTION, RES_1920X1080, 1.0, 1.3);

    let (ty_start, ty_end) = pair(kf.translate_y);
    assert_eq!(ty_start, -108.0);
    assert_eq!(ty_end, 0.0);
}

#[test]
fn focal_point_center_produces_zero_translate() {
    let kf = map(&focal([0.5, 0.5], [0.5, 0.5]), PAN_FRACTION, RES_1920X1080, 1.0, 1.3);

    let (tx_start, tx_end) = pair(kf.translate_x);
    let (ty_start, ty_end) = pair(kf.translate_y);
    assert_eq!(tx_start, 0.0);
    assert_eq!(tx_end, 0.0);
    assert_eq!(ty_start, 0.0);
    assert_eq!(ty_end, 0.0);
}

#[test]
fn focal_point_top_left_produces_positive_translate() {
    let kf = map(&focal([0.0, 0.0], [1.0, 1.0]), PAN_FRACTION, RES_1920X1080, 1.0, 1.0);

    let (tx_start, tx_end) = pair(kf.translate_x);
    let (ty_start, ty_end) = pair(kf.translate_y);
    assert_eq!(tx_start, 0.5 * 1920.0);
    assert_eq!(tx_end, -0.5 * 1920.0);
    assert_eq!(ty_start, 0.5 * 1080.0);
    assert_eq!(ty_end, -0.5 * 1080.0);
}

#[test]
fn translation_scales_with_resolution() {
    let dir = KenBurnsDirection::ZoomInLeft;
    let landscape: [u32; 2] = [1920, 1080];
    let portrait: [u32; 2] = [1080, 1920];

    let kf_landscape = map(&dir, 0.1, landscape, 1.0, 1.3);
    let kf_portrait = map(&dir, 0.1, portrait, 1.0, 1.3);

    let (_, tx_land) = pair(kf_landscape.translate_x);
    let (_, tx_port) = pair(kf_portrait.translate_x);
    assert_eq!(tx_land, 192.0);
    assert_eq!(tx_port, 108.0);
}

#[test]
fn pan_fraction_zero_produces_no_translate() {
    let kf = map(&KenBurnsDirection::ZoomInLeft, 0.0, RES_1920X1080, 1.0, 1.3);

    let (tx_start, tx_end) = pair(kf.translate_x);
    assert_eq!(tx_start, 0.0);
    assert_eq!(tx_end, 0.0);
}

#[test]
fn negated_pan_is_exact_sign_flip() {
    let amounts = PanAmounts { x: v(0.0), y: v(0.0) };
    let offsets = FocalOffsets { x_start: v(0.0), x_end: v(0.0), y_start: v(0.0), y_end: v(0.0) };
    let kf = direction_to_keyframes(&KenBurnsDirection::ZoomInRight, amounts, offsets, v(1.0), v(1.3));
    let (_, end) = kf.translate_x.unwrap();
    // Negating +0.0 gives -0.0, as the binary32 negation does.
    assert_eq!(end.bits, 0x8000_0000);
}

// ---------------------------------------------------------------------------
// Timing
// ---------------------------------------------------------------------------

fn timings(holds: &[f64], fades: &[f64]) -> Vec<(f64, f64)> {
    let holds: Vec<Seconds> = holds.iter().map(|h| s(*h)).collect();
    let fades: Vec<Seconds> = fades.iter().map(|f| s(*f)).collect();
    compute_segment_timings(&holds, &fades, &sum).iter().map(|t| (secs(t.fade_start), secs(t.fade_end))).collect()
}

#[test]
fn single_segment_timing() {
    let t = timings(&[5.0], &[2.0]);

    assert_eq!(t.len(), 1);
    assert_eq!(t[0].0, 5.0);
    assert_eq!(t[0].1, 7.0);
}

#[test]
fn three_equal_segments() {
    let t = timings(&[3.0, 3.0, 3.0], &[1.0, 1.0, 1.0]);

    assert_eq!(t.len(), 3);
    assert_eq!(t[0].0, 3.0);
    assert_eq!(t[0].1, 4.0);
    assert_eq!(t[1].0, 7.0);
    assert_eq!(t[1].1, 8.0);
    assert_eq!(t[2].0, 11.0);
    assert_eq!(t[2].1, 12.0);
}

#[test]
fn per_segment_different_durations() {
    let t = timings(&[2.0, 5.0, 3.0], &[1.0, 2.0, 1.5]);

    assert_eq!(t.len(), 3);
    assert_eq!(t[0].0, 2.0);
    assert_eq!(t[0].1, 3.0);
    assert_eq!(t[1].0, 8.0);
    assert_eq!(t[1].1, 10.0);
    assert_eq!(t[2].0, 13.0);
    assert_eq!(t[2].1, 14.5);
}

#[test]
fn empty_segments_returns_empty_vec() {
    let t = timings(&[], &[]);

    assert!(t.is_empty());
}

// ---------------------------------------------------------------------------
// Pipelines
// ---------------------------------------------------------------------------

fn project_params(duration: f64) -> ProjectParams {
    ProjectParams::new([1920, 1080], 60, s(duration), "out.mp4")
}

fn plus(offset: f64) -> impl Fn(Seconds) -> Seconds {
    move |t: Seconds| s(secs(t) + offset)
}

#[test]
fn e2e_multi_image_ken_burns_with_overlay_produces_valid_project() {
    let clips = build(
        KenBurnsBuilder::new(default_params())
            .add_segment(minimal_segment("img1.png", KenBurnsDirection::ZoomInLeft))
            .add_segment(minimal_segment("img2.png", KenBurnsDirection::ZoomOutCenter))
            .add_segment(minimal_segment("img3.png", KenBurnsDirection::ZoomInRight)),
    );
    let mut overlay_params = ClipParams::new("overlay", "overlay.png", s(30.0));
    overlay_params.z_index = 100;
    let overlay = ClipBuilder::new(overlay_params);

    let project = ProjectBuilder::new(project_params(30.0))
        .add_clips_at(&plus(0.0), clips)
        .add_clip(overlay)
        .build(&text)
        .unwrap();

    assert_eq!(project.items.len(), 4);
    let ken_burns_clips: Vec<_> = project.items.iter().filter(|c| c.id.starts_with("ken_burns_")).collect();
    assert_eq!(ken_burns_clips.len(), 3);
    assert!(ken_burns_clips[0].z_index > ken_burns_clips[1].z_index);
    assert!(ken_burns_clips[1].z_index > ken_burns_clips[2].z_index);
    let overlay_clip = project.items.iter().find(|c| c.id == "overlay").unwrap();
    assert_eq!(overlay_clip.z_index, 100);
}

#[test]
fn translations_scale_proportionally_between_landscape_and_portrait() {
    let land = build_all(
        KenBurnsBuilder::new(KenBurnsParams::new(s(30.0), [1920, 1080]))
            .add_segment(minimal_segment("img.png", KenBurnsDirection::ZoomInLeft)),
    );
    let port = build_all(
        KenBurnsBuilder::new(KenBurnsParams::new(s(30.0), [1080, 1920]))
            .add_segment(minimal_segment("img.png", KenBurnsDirection::ZoomInLeft)),
    );

    let land_tx = track(&land[0], AnimatableProperty::TranslateX);
    let port_tx = track(&port[0], AnimatableProperty::TranslateX);

    assert_eq!(val(land_tx.keyframes[1].value), 192.0);
    assert_eq!(val(port_tx.keyframes[1].value), 108.0);

    let ratio = val(land_tx.keyframes[1].value) / val(port_tx.keyframes[1].value);
    assert!((ratio - (1920.0_f32 / 1080.0_f32)).abs() < 0.01);
}

#[test]
fn stack_pop_timing_no_overlap_no_gap() {
    let built = build_all(
        KenBurnsBuilder::new(timed_params(5.0, 2.0))
            .add_segment(minimal_segment("img1.png", KenBurnsDirection::ZoomInCenter))
            .add_segment(minimal_segment("img2.png", KenBurnsDirection::ZoomInCenter))
            .add_segment(minimal_segment("img3.png", KenBurnsDirection::ZoomInCenter)),
    );

    let expected = [(5.0, 7.0), (12.0, 14.0), (19.0, 21.0)];
    for (clip, (start, end)) in built.iter().zip(expected.iter()) {
        let op = track(clip, AnimatableProperty::Opacity);
        assert_eq!(secs(op.keyframes[0].time), *start);
        assert_eq!(val(op.keyframes[0].value), 1.0);
        assert_eq!(secs(op.keyframes[1].time), *end);
        assert_eq!(val(op.keyframes[1].value), 0.0);
    }

    let fade_ranges: Vec<_> = built
        .iter()
        .map(|c| {
            let op = track(c, AnimatableProperty::Opacity);
            (secs(op.keyframes[0].time), secs(op.keyframes[1].time))
        })
        .collect();

    for i in 0..fade_ranges.len() {
        for j in (i + 1)..fade_ranges.len() {
            let (a_start, a_end) = fade_ranges[i];
            let (b_start, b_end) = fade_ranges[j];
            assert!(
                a_end <= b_start || b_end <= a_start,
                "fade windows overlap: [{a_start}, {a_end}) and [{b_start}, {b_end})"
            );
        }
    }
}

#[test]
fn focal_point_direction_produces_correct_translate_keyframes() {
    let built = build_all(
        KenBurnsBuilder::new(default_params()).add_segment(minimal_segment("img.png", focal([0.25, 0.25], [0.75, 0.75]))),
    );

    let tx = track(&built[0], AnimatableProperty::TranslateX);
    assert_eq!(val(tx.keyframes[0].value), 480.0);
    assert_eq!(val(tx.keyframes[1].value), -624.0);

    let ty = track(&built[0], AnimatableProperty::TranslateY);
    assert_eq!(val(ty.keyframes[0].value), 270.0);
    assert_eq!(val(ty.keyframes[1].value), -351.0);
}

#[test]
fn per_segment_overrides_take_precedence_over_defaults() {
    let mut second = minimal_segment("img2.png", KenBurnsDirection::ZoomInCenter);
    second.zoom_start = Some(v(0.5));
    second.zoom_end = Some(v(2.0));
    second.hold_duration = Some(s(3.0));
    second.fade_duration = Some(s(1.0));

    let built = build_all(
        KenBurnsBuilder::new(timed_params(5.0, 2.0))
            .add_segment(minimal_segment("img1.png", KenBurnsDirection::ZoomInCenter))
            .add_segment(second),
    );

    let scale0 = track(&built[0], AnimatableProperty::ScaleX);
    assert_eq!(val(scale0.keyframes[0].value), 1.0);
    assert_eq!(val(scale0.keyframes[1].value), 1.3);

    let op0 = track(&built[0], AnimatableProperty::Opacity);
    assert_eq!(secs(op0.keyframes[0].time), 5.0);
    assert_eq!(secs(op0.keyframes[1].time), 7.0);

    let scale1 = track(&built[1], AnimatableProperty::ScaleX);
    assert_eq!(val(scale1.keyframes[0].value), 0.5);
    assert_eq!(val(scale1.keyframes[1].value), 2.0);

    let op1 = track(&built[1], AnimatableProperty::Opacity);
    assert_eq!(secs(op1.keyframes[0].time), 10.0);
    assert_eq!(secs(op1.keyframes[1].time), 11.0);
}

#[test]
fn add_clips_at_offsets_clips_and_keyframes_into_project() {
    let clips = build(
        KenBurnsBuilder::new(default_params())
            .add_segment(minimal_segment("img1.png", KenBurnsDirection::ZoomInCenter))
            .add_segment(minimal_segment("img2.png", KenBurnsDirection::ZoomInCenter)),
    );

    let project = ProjectBuilder::new(project_params(40.0)).add_clips_at(&plus(10.0), clips).build(&text).unwrap();

    assert_eq!(project.items.len(), 2);
    for clip in &project.items {
        assert_eq!(secs(clip.start_time), 10.0);
        assert_eq!(secs(clip.end_time), 40.0);
    }

    for clip in &project.items {
        for anim in &clip.animations {
            for kf in &anim.keyframes {
                assert!(secs(kf.time) >= 10.0, "keyframe time {} should be >= 10.0 (offset applied)", secs(kf.time));
            }
        }
    }
}

#[test]
fn composability_pipeline_opacity_then_add_clips_at() {
    let ken_burns = KenBurnsBuilder::new(timed_params(5.0, 2.0))
        .add_segment(minimal_segment("img1.png", KenBurnsDirection::ZoomInCenter))
        .add_segment(minimal_segment("img2.png", KenBurnsDirection::ZoomInCenter));

    let clips = opacity(build(ken_burns), v(0.5), &|x: Scalar| v(val(x) * 0.5));
    let project = ProjectBuilder::new(project_params(40.0)).add_clips_at(&plus(5.0), clips).build(&text).unwrap();

    assert_eq!(project.items.len(), 2);

    for clip in &project.items {
        assert_eq!(secs(clip.start_time), 5.0);
        assert_eq!(secs(clip.end_time), 35.0);
    }

    for clip in &project.items {
        let op = track(clip, AnimatableProperty::Opacity);
        assert!((val(op.keyframes[0].value) - 0.5).abs() < 0.01, "opacity value should be 0.5");
        assert!((val(op.keyframes[1].value) - 0.0).abs() < 0.01, "opacity value should be 0.0");
    }
}

#[test]
fn total_segment_time_matches_sum() {
    let holds: Vec<Seconds> = [2.0, 5.0, 3.0].iter().map(|h| s(*h)).collect();
    let fades: Vec<Seconds> = [1.0, 2.0, 1.5].iter().map(|f| s(*f)).collect();

    let total = total_segment_time(&holds, &fades, &sum);

    assert_eq!(secs(total), 14.5);
}

#[test]
fn empty_segments_total_time_is_zero() {
    let total = total_segment_time(&Vec::new(), &Vec::new(), &sum);

    assert_eq!(secs(total), 0.0);
}

#[test]
fn build_emits_warning_when_segments_exceed_duration() {
    let mut params = timed_params(8.0, 2.0);
    params.duration = s(10.0);
    let builder = KenBurnsBuilder::new(params)
        .add_segment(minimal_segment("img1.png", KenBurnsDirection::ZoomInCenter))
        .add_segment(minimal_segment("img2.png", KenBurnsDirection::ZoomInCenter));

    // The segments need 20 s, more than the 10 s of the effect: the caller warns.
    let total = builder.segment_time(&sum);
    assert_eq!(secs(total), 20.0);
    assert!(params.is_overrun(total));

    // The build still succeeds, with a warning.
    let (clips, warning) = builder.build_with_warning(&sum, &pan, &offset, &one_decimal);
    assert_eq!(clips.len(), 2);
    let warning = warning.expect("segments overrun the effect");
    assert!(warning.contains("Ken Burns segments require"));
    assert_eq!(
        warning,
        "Ken Burns segments require 20.0s but effect duration is 10.0s. Some clips may not fade completely."
    );
}

#[test]
fn build_without_overrun_gives_no_warning() {
    let mut params = timed_params(5.0, 2.0);
    params.duration = s(15.0);
    let builder = KenBurnsBuilder::new(params)
        .add_segment(minimal_segment("img1.png", KenBurnsDirection::ZoomInCenter))
        .add_segment(minimal_segment("img2.png", KenBurnsDirection::ZoomOutCenter));
    // 14 s of segments fit in 15 s.
    let (clips, warning) = builder.build_with_warning(&sum, &pan, &offset, &one_decimal);
    assert_eq!(clips.len(), 2);
    assert!(warning.is_none());
}

#[test]
fn overrun_warning_only_past_the_duration() {
    let mut params = timed_params(5.0, 2.0);
    params.duration = s(7.0);
    assert!(params.overrun_warning(s(7.0), &one_decimal).is_none());
    assert_eq!(
        params.overrun_warning(s(7.5), &one_decimal).unwrap(),
        "Ken Burns segments require 7.5s but effect duration is 7.0s. Some clips may not fade completely."
    );
}

#[test]
fn segments_within_duration_are_no_overrun() {
    let params = timed_params(5.0, 2.0);
    let builder = KenBurnsBuilder::new(params)
        .add_segment(minimal_segment("img1.png", KenBurnsDirection::ZoomInCenter));
    let total = builder.segment_time(&sum);
    assert_eq!(secs(total), 7.0);
    assert!(!params.is_overrun(total));
}

#[test]
fn single_segment_produces_pan_zoom_and_opacity_fade() {
    let mut params = timed_params(5.0, 2.0);
    params.duration = s(15.0);

    let clips = build(KenBurnsBuilder::new(params).add_segment(minimal_segment("img.png", KenBurnsDirection::ZoomInLeft)));

    assert_eq!(clips.len(), 1);
    let clip = clips.into_iter().next().unwrap().build().unwrap();
    assert_eq!(clip.z_index, 0);

    let properties: Vec<_> = clip.animations.iter().map(|a| a.property).collect();
    assert!(properties.contains(&AnimatableProperty::ScaleX));
    assert!(properties.contains(&AnimatableProperty::ScaleY));
    assert!(properties.contains(&AnimatableProperty::TranslateX));
    assert!(properties.contains(&AnimatableProperty::Opacity));

    let op = track(&clip, AnimatableProperty::Opacity);
    assert_eq!(secs(op.keyframes[0].time), 5.0);
    assert_eq!(val(op.keyframes[0].value), 1.0);
    assert_eq!(secs(op.keyframes[1].time), 7.0);
    assert_eq!(val(op.keyframes[1].value), 0.0);

    // The clips also go into a project.
    let clips2 = build(KenBurnsBuilder::new(params).add_segment(minimal_segment("img.png", KenBurnsDirection::ZoomInLeft)));
    let project = ProjectBuilder::new(project_params(15.0)).add_clips_at(&plus(0.0), clips2).build(&text).unwrap();
    assert_eq!(project.items.len(), 1);
}

#[test]
fn every_track_has_two_keyframes_with_the_segment_easing() {
    let built = build_all(
        KenBurnsBuilder::new(default_params()).add_segment(minimal_segment("a.png", focal([0.2, 0.3], [0.7, 0.6]))),
    );
    let props: Vec<_> = built[0].animations.iter().map(|a| a.property).collect();
    assert_eq!(
        props,
        vec![
            AnimatableProperty::ScaleX,
            AnimatableProperty::ScaleY,
            AnimatableProperty::TranslateX,
            AnimatableProperty::TranslateY,
            AnimatableProperty::Opacity
        ]
    );
    for anim in &built[0].animations {
        assert_eq!(anim.keyframes.len(), 2);
        assert!(anim.keyframes.iter().all(|k| k.easing == Easing::SineInOut));
    }
}
