use superscrub::anim_builder::AnimBuilder;
use superscrub::model::{AnimatableProperty, Easing, Keyframe};
use superscrub::seconds::{Scalar, Seconds};

fn s(x: f64) -> Seconds {
    Seconds::from_bits(x.to_bits())
}

fn v(x: f32) -> Scalar {
    Scalar::from_bits(x.to_bits())
}

fn secs(t: Seconds) -> f64 {
    f64::from_bits(t.bits)
}

fn val(x: Scalar) -> f32 {
    f32::from_bits(x.bits)
}

fn times(factor: f32) -> impl Fn(Scalar) -> Scalar {
    move |x: Scalar| v(val(x) * factor)
}

fn plus(offset: f64) -> impl Fn(Seconds) -> Seconds {
    move |t: Seconds| s(secs(t) + offset)
}

#[test]
fn build_returns_track_with_correct_property() {
    // Given a builder for opacity.
    let builder = AnimBuilder::opacity();

    // When building with no keyframes.
    let track = builder.build();

    // Then the property is Opacity and keyframes are empty.
    assert_eq!(track.property, AnimatableProperty::Opacity);
    assert!(track.keyframes.is_empty());
}

#[test]
fn keyframe_appends_with_linear_easing() {
    let builder = AnimBuilder::opacity();

    let track = builder.keyframe(s(0.0), v(1.0)).keyframe(s(5.0), v(2.0)).build();

    assert_eq!(track.keyframes.len(), 2);
    assert_eq!(secs(track.keyframes[0].time), 0.0);
    assert_eq!(val(track.keyframes[0].value), 1.0);
    assert_eq!(track.keyframes[0].easing, Easing::Linear);
    assert_eq!(secs(track.keyframes[1].time), 5.0);
    assert_eq!(val(track.keyframes[1].value), 2.0);
    assert_eq!(track.keyframes[1].easing, Easing::Linear);
}

#[test]
fn keyframe_with_easing_uses_provided_easing() {
    let builder = AnimBuilder::opacity();

    let track = builder.keyframe_with_easing(s(0.0), v(1.0), Easing::SineInOut).build();

    assert_eq!(track.keyframes.len(), 1);
    assert_eq!(track.keyframes[0].easing, Easing::SineInOut);
}

#[test]
fn mixed_keyframe_types_preserve_order() {
    let builder = AnimBuilder::translate_x();

    let track = builder
        .keyframe(s(0.0), v(0.0))
        .keyframe_with_easing(s(2.0), v(50.0), Easing::SineInOut)
        .keyframe(s(4.0), v(100.0))
        .build();

    assert_eq!(track.keyframes.len(), 3);

    assert_eq!(secs(track.keyframes[0].time), 0.0);
    assert_eq!(val(track.keyframes[0].value), 0.0);
    assert_eq!(track.keyframes[0].easing, Easing::Linear);

    assert_eq!(secs(track.keyframes[1].time), 2.0);
    assert_eq!(val(track.keyframes[1].value), 50.0);
    assert_eq!(track.keyframes[1].easing, Easing::SineInOut);

    assert_eq!(secs(track.keyframes[2].time), 4.0);
    assert_eq!(val(track.keyframes[2].value), 100.0);
    assert_eq!(track.keyframes[2].easing, Easing::Linear);
}

#[test]
fn keyframe_count_tracks_accumulation() {
    let builder = AnimBuilder::rotation();
    assert_eq!(builder.keyframe_count(), 0);

    let builder = builder.keyframe(s(0.0), v(0.0));
    assert_eq!(builder.keyframe_count(), 1);

    let builder = builder.keyframe(s(1.0), v(90.0));
    assert_eq!(builder.keyframe_count(), 2);
}

#[test]
fn property_accessor_returns_set_property() {
    let builder = AnimBuilder::translate_y();

    let property = builder.property();

    assert_eq!(property, AnimatableProperty::TranslateY);
}

#[test]
fn with_scaled_values_scales_all_values() {
    let builder = AnimBuilder::opacity().keyframe(s(0.0), v(1.0)).keyframe(s(5.0), v(0.0));

    let track = builder.with_scaled_values(times(0.5)).build();

    assert_eq!(track.keyframes.len(), 2);
    assert_eq!(secs(track.keyframes[0].time), 0.0);
    assert_eq!(val(track.keyframes[0].value), 0.5);
    assert_eq!(track.keyframes[0].easing, Easing::Linear);
    assert_eq!(secs(track.keyframes[1].time), 5.0);
    assert_eq!(val(track.keyframes[1].value), 0.0);
    assert_eq!(track.keyframes[1].easing, Easing::Linear);
}

#[test]
fn with_scaled_values_with_zero_factor_produces_zero_values() {
    let builder = AnimBuilder::opacity().keyframe(s(0.0), v(1.0)).keyframe(s(3.0), v(0.8));

    let track = builder.with_scaled_values(times(0.0)).build();

    assert_eq!(val(track.keyframes[0].value), 0.0);
    assert_eq!(val(track.keyframes[1].value), 0.0);
}

#[test]
fn with_scaled_values_with_factor_one_is_identity() {
    let builder = AnimBuilder::opacity().keyframe(s(0.0), v(0.7)).keyframe(s(2.0), v(0.3));

    let track = builder.with_scaled_values(times(1.0)).build();

    assert_eq!(val(track.keyframes[0].value), 0.7);
    assert_eq!(val(track.keyframes[1].value), 0.3);
}

#[test]
fn keyframes_returns_slice_of_added_keyframes() {
    let builder = AnimBuilder::scale_x().keyframe(s(0.0), v(1.0)).keyframe(s(5.0), v(2.0));

    let slice = builder.keyframes();

    assert_eq!(slice.len(), 2);
    assert_eq!(secs(slice[0].time), 0.0);
    assert_eq!(secs(slice[1].time), 5.0);
}

#[test]
fn from_keyframes_produces_builder_with_correct_data() {
    let keyframes = vec![
        Keyframe { time: s(0.0), value: v(1.0), easing: Easing::Linear },
        Keyframe { time: s(3.0), value: v(0.0), easing: Easing::SineInOut },
    ];

    let track = AnimBuilder::from_keyframes(AnimatableProperty::Opacity, keyframes).build();

    assert_eq!(track.property, AnimatableProperty::Opacity);
    assert_eq!(track.keyframes.len(), 2);
    assert_eq!(secs(track.keyframes[0].time), 0.0);
    assert_eq!(val(track.keyframes[0].value), 1.0);
    assert_eq!(secs(track.keyframes[1].time), 3.0);
    assert_eq!(val(track.keyframes[1].value), 0.0);
    assert_eq!(track.keyframes[1].easing, Easing::SineInOut);
}

#[test]
fn with_time_offset_shifts_all_keyframe_times() {
    let builder =
        AnimBuilder::opacity().keyframe_with_easing(s(0.0), v(1.0), Easing::SineInOut).keyframe(s(3.0), v(0.0));

    let track = builder.with_time_offset(&plus(5.0)).build();

    assert_eq!(track.keyframes.len(), 2);
    assert_eq!(secs(track.keyframes[0].time), 5.0);
    assert_eq!(val(track.keyframes[0].value), 1.0);
    assert_eq!(track.keyframes[0].easing, Easing::SineInOut);
    assert_eq!(secs(track.keyframes[1].time), 8.0);
    assert_eq!(val(track.keyframes[1].value), 0.0);
    assert_eq!(track.keyframes[1].easing, Easing::Linear);
}

#[test]
fn with_time_offset_with_zero_offset_is_identity() {
    let builder = AnimBuilder::opacity().keyframe(s(0.0), v(1.0)).keyframe(s(3.0), v(0.0));

    let track = builder.with_time_offset(&plus(0.0)).build();

    assert_eq!(secs(track.keyframes[0].time), 0.0);
    assert_eq!(secs(track.keyframes[1].time), 3.0);
}

#[test]
fn with_time_offset_preserves_property() {
    let builder = AnimBuilder::translate_x().keyframe(s(0.0), v(10.0));

    let track = builder.with_time_offset(&plus(100.0)).build();

    assert_eq!(track.property, AnimatableProperty::TranslateX);
}

#[test]
fn each_constructor_sets_its_property() {
    assert_eq!(AnimBuilder::scale_x().property(), AnimatableProperty::ScaleX);
    assert_eq!(AnimBuilder::scale_y().property(), AnimatableProperty::ScaleY);
    assert_eq!(AnimBuilder::translate_x().property(), AnimatableProperty::TranslateX);
    assert_eq!(AnimBuilder::translate_y().property(), AnimatableProperty::TranslateY);
    assert_eq!(AnimBuilder::rotation().property(), AnimatableProperty::Rotation);
    assert_eq!(AnimBuilder::opacity().property(), AnimatableProperty::Opacity);
}

#[test]
fn with_time_offset_hands_each_time_to_the_shift() {
    // A shift that is not an offset shows that every time goes through it.
    let builder = AnimBuilder::opacity().keyframe(s(1.0), v(1.0)).keyframe(s(2.0), v(0.0));
    let track = builder.with_time_offset(&|t: Seconds| s(secs(t) * 10.0)).build();
    assert_eq!(secs(track.keyframes[0].time), 10.0);
    assert_eq!(secs(track.keyframes[1].time), 20.0);
}
