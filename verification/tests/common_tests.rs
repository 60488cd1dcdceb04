use bevy_resolution::common::CommonResolutions;
use bevy_resolution::common4x3::CommonResolutions as CommonResolutions4x3;
use bevy_resolution::resolutions::PixelPair;

#[test]
fn prelude_iter() {
    let iter = CommonResolutions::iter();

    assert_eq!(iter[0], CommonResolutions::R360p);
    assert_eq!(iter[1], CommonResolutions::R720p);
    assert_eq!(iter[2], CommonResolutions::R1080p);
    assert_eq!(iter[3], CommonResolutions::R1440p);
}

#[test]
fn common4x3_iter() {
    let iter = CommonResolutions4x3::iter();

    assert_eq!(iter[0], CommonResolutions4x3::R360p);
    assert_eq!(iter[1], CommonResolutions4x3::R480p);
    assert_eq!(iter[2], CommonResolutions4x3::R720p);
    assert_eq!(iter[3], CommonResolutions4x3::R1440p);
}

#[test]
fn prelude_resolution_uvec2() {
    let r360 = CommonResolutions::R360p.to_resolution().to_pixel_pair();
    let r720 = CommonResolutions::R720p.to_resolution().to_pixel_pair();
    let r1080 = CommonResolutions::R1080p.to_resolution().to_pixel_pair();
    let r1440 = CommonResolutions::R1440p.to_resolution().to_pixel_pair();

    assert_eq!(PixelPair::new(2560, 1440), r1440);

    assert_eq!(PixelPair::new(1920, 1080), r1080);

    assert_eq!(PixelPair::new(1280, 720), r720);

    assert_eq!(PixelPair::new(640, 360), r360);
}

#[test]
fn common4x3_resolution_uvec2() {
    let r360 = CommonResolutions4x3::R360p.to_resolution().to_pixel_pair();
    let r480 = CommonResolutions4x3::R480p.to_resolution().to_pixel_pair();
    let r720 = CommonResolutions4x3::R720p.to_resolution().to_pixel_pair();
    let r1440 = CommonResolutions4x3::R1440p.to_resolution().to_pixel_pair();

    assert_eq!(PixelPair::new(1920, 1440), r1440);
    assert_eq!(PixelPair::new(960, 720), r720);
    assert_eq!(PixelPair::new(640, 480), r480);
    assert_eq!(PixelPair::new(480, 360), r360);
}

#[test]
fn prelude_resolution_vec2() {
    let r360 = CommonResolutions::R360p.to_resolution();
    let r720 = CommonResolutions::R720p.to_resolution();
    let r1080 = CommonResolutions::R1080p.to_resolution();
    let r1440 = CommonResolutions::R1440p.to_resolution();

    assert_eq!(bevy_resolution::Rational::from_int(2560), r1440.width());
    assert_eq!(bevy_resolution::Rational::from_int(1440), r1440.height());
    assert_eq!(bevy_resolution::Rational::from_int(1920), r1080.width());
    assert_eq!(bevy_resolution::Rational::from_int(1080), r1080.height());
    assert_eq!(bevy_resolution::Rational::from_int(1280), r720.width());
    assert_eq!(bevy_resolution::Rational::from_int(720), r720.height());
    assert_eq!(bevy_resolution::Rational::from_int(640), r360.width());
    assert_eq!(bevy_resolution::Rational::from_int(360), r360.height());
}

#[test]
fn common4x3_resolution_vec2() {
    let r360 = CommonResolutions4x3::R360p.to_resolution();
    let r480 = CommonResolutions4x3::R480p.to_resolution();
    let r720 = CommonResolutions4x3::R720p.to_resolution();
    let r1440 = CommonResolutions4x3::R1440p.to_resolution();

    assert_eq!(bevy_resolution::Rational::from_int(1920), r1440.width());
    assert_eq!(bevy_resolution::Rational::from_int(1440), r1440.height());
    assert_eq!(bevy_resolution::Rational::from_int(960), r720.width());
    assert_eq!(bevy_resolution::Rational::from_int(720), r720.height());
    assert_eq!(bevy_resolution::Rational::from_int(640), r480.width());
    assert_eq!(bevy_resolution::Rational::from_int(480), r480.height());
    assert_eq!(bevy_resolution::Rational::from_int(480), r360.width());
    assert_eq!(bevy_resolution::Rational::from_int(360), r360.height());
}
