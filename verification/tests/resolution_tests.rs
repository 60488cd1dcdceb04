use bevy_resolution::aspect::AspectRatio;
use bevy_resolution::rational::Rational;
use bevy_resolution::resolutions::{
    fits_aspect_ratio, get_scale_factor, has_integer_scale, r1080p, r1440p, r360p, r480p, r720p,
    AspectRatioMode, PixelPair, Resolution, Scale2,
};

#[test]
fn can_fit() {
    assert!(fits_aspect_ratio(Rational::from_int(360), &AspectRatio::four_three()));
    assert!(fits_aspect_ratio(Rational::from_int(360), &AspectRatio::sixteen_nine()));
    assert!(!fits_aspect_ratio(Rational::from_int(480), &AspectRatio::sixteen_nine()));
    assert!(fits_aspect_ratio(Rational::from_int(480), &AspectRatio::four_three()));
}

#[test]
fn can_integer_scale() {
    assert!(!has_integer_scale(
        &r360p(AspectRatio::four_three()),
        &r480p(AspectRatio::four_three())
    ));
    assert!(has_integer_scale(
        &r360p(AspectRatio::sixteen_nine()),
        &r720p(AspectRatio::sixteen_nine())
    ));
    assert!(!has_integer_scale(
        &r360p(AspectRatio::sixteen_nine()),
        &r720p(AspectRatio::four_three())
    ));
}

#[test]
fn get_scale() {
    assert_eq!(
        get_scale_factor(
            &r360p(AspectRatio::sixteen_nine()),
            &r720p(AspectRatio::sixteen_nine())
        ),
        Scale2::splat(Rational::from_int(2))
    );
    assert_eq!(
        get_scale_factor(
            &r720p(AspectRatio::sixteen_nine()),
            &r360p(AspectRatio::sixteen_nine())
        ),
        Scale2::splat(Rational::new(1, 2))
    );
}

#[test]
fn resolution_uvec2() {
    let r360_1 = r360p(AspectRatio::sixteen_nine()).to_pixel_pair();
    let r360_2 = r360p(AspectRatio::four_three()).to_pixel_pair();
    let r480_1 = r480p(AspectRatio::sixteen_nine()).to_pixel_pair();
    let r480_2 = r480p(AspectRatio::four_three()).to_pixel_pair();
    let r720_1 = r720p(AspectRatio::sixteen_nine()).to_pixel_pair();
    let r720_2 = r720p(AspectRatio::four_three()).to_pixel_pair();
    let r1080_1 = r1080p(AspectRatio::sixteen_nine()).to_pixel_pair();
    let r1080_2 = r1080p(AspectRatio::four_three()).to_pixel_pair();
    let r1440_1 = r1440p(AspectRatio::sixteen_nine()).to_pixel_pair();
    let r1440_2 = r1440p(AspectRatio::four_three()).to_pixel_pair();
    let r_custom =
        Resolution::from_height(Rational::from_int(240), AspectRatio::sixteen_nine())
            .to_pixel_pair();

    assert_eq!(PixelPair::new(427, 240), r_custom);

    assert_eq!(PixelPair::new(1920, 1440), r1440_2);
    assert_eq!(PixelPair::new(2560, 1440), r1440_1);

    assert_eq!(PixelPair::new(1920, 1080), r1080_1);
    assert_eq!(PixelPair::new(1440, 1080), r1080_2);

    assert_eq!(PixelPair::new(1280, 720), r720_1);
    assert_eq!(PixelPair::new(960, 720), r720_2);

    assert_eq!(PixelPair::new(854, 480), r480_1);
    assert_eq!(PixelPair::new(640, 480), r480_2);

    assert_eq!(PixelPair::new(640, 360), r360_1);
    assert_eq!(PixelPair::new(480, 360), r360_2);
}

#[test]
fn resolution_vec2() {
    let r360_1 = r360p(AspectRatio::sixteen_nine());
    let r360_2 = r360p(AspectRatio::four_three());

    let r480_1 = r480p(AspectRatio::sixteen_nine());
    let r480_2 = r480p(AspectRatio::four_three());

    let r720_1 = r720p(AspectRatio::sixteen_nine());
    let r720_2 = r720p(AspectRatio::four_three());

    let r1080_1 = r1080p(AspectRatio::sixteen_nine());
    let r1080_2 = r1080p(AspectRatio::four_three());

    let r1440_1 = r1440p(AspectRatio::sixteen_nine());
    let r1440_2 = r1440p(AspectRatio::four_three());

    let r_custom = Resolution::from_height(Rational::from_int(240), AspectRatio::sixteen_nine());

    // 240 * 16/9 is exactly 1280/3 (about 426.67).
    assert_eq!(Rational::new(1280, 3), r_custom.width());
    assert_eq!(Rational::from_int(240), r_custom.height());

    assert_eq!(Rational::from_int(1920), r1440_2.width());
    assert_eq!(Rational::from_int(1440), r1440_2.height());
    assert_eq!(Rational::from_int(2560), r1440_1.width());
    assert_eq!(Rational::from_int(1440), r1440_1.height());

    assert_eq!(Rational::from_int(1920), r1080_1.width());
    assert_eq!(Rational::from_int(1080), r1080_1.height());
    assert_eq!(Rational::from_int(1440), r1080_2.width());
    assert_eq!(Rational::from_int(1080), r1080_2.height());

    assert_eq!(Rational::from_int(1280), r720_1.width());
    assert_eq!(Rational::from_int(720), r720_1.height());
    assert_eq!(Rational::from_int(960), r720_2.width());
    assert_eq!(Rational::from_int(720), r720_2.height());

    // 480 * 16/9 is exactly 2560/3 (about 853.33).
    assert_eq!(Rational::new(2560, 3), r480_1.width());
    assert_eq!(Rational::from_int(480), r480_1.height());
    assert_eq!(Rational::from_int(640), r480_2.width());
    assert_eq!(Rational::from_int(480), r480_2.height());

    assert_eq!(Rational::from_int(640), r360_1.width());
    assert_eq!(Rational::from_int(360), r360_1.height());
    assert_eq!(Rational::from_int(480), r360_2.width());
    assert_eq!(Rational::from_int(360), r360_2.height());
}

#[test]
fn aspect_ratio() {
    let r360 = r360p(AspectRatio::sixteen_nine()).aspect_ratio();

    let r480 = r480p(AspectRatio::four_three()).aspect_ratio();

    let r720 = r720p(AspectRatio::sixteen_nine()).aspect_ratio();

    let r1080 = r1080p(AspectRatio::sixteen_nine()).aspect_ratio();

    let r1440 = r1440p(AspectRatio::sixteen_nine()).aspect_ratio();

    let r_custom = Resolution::from_height(Rational::from_int(240), AspectRatio::sixteen_nine())
        .aspect_ratio();

    assert_eq!(AspectRatio::sixteen_nine(), r_custom);

    assert_eq!(AspectRatio::sixteen_nine(), r1440);

    assert_eq!(AspectRatio::sixteen_nine(), r1080);

    assert_eq!(AspectRatio::sixteen_nine(), r720);

    assert_eq!(AspectRatio::four_three(), r480);

    assert_eq!(AspectRatio::sixteen_nine(), r360);
}

#[test]
fn scale() {
    let r360 = r360p(AspectRatio::sixteen_nine());

    let stretched = r360.scale(Scale2::new(Rational::from_int(1), Rational::from_int(2)));
    assert_eq!(stretched.width(), Rational::from_int(640));
    assert_eq!(stretched.height(), Rational::from_int(720));

    assert_eq!(
        r360.scale(Scale2::splat(Rational::from_int(2))),
        r720p(AspectRatio::sixteen_nine())
    );

    assert_eq!(
        r360.scale_and_keep_aspect_ratio(Scale2::new(Rational::from_int(1), Rational::from_int(2))),
        None
    );
    assert_eq!(
        r360.scale_and_keep_aspect_ratio(Scale2::splat(Rational::from_int(2))),
        Some(r720p(AspectRatio::sixteen_nine()))
    );
}

#[test]
fn changes() {
    let r360 = r360p(AspectRatio::sixteen_nine());

    assert_eq!(r360.change_height(Rational::from_int(720), false).width(), Rational::from_int(640));
    assert_eq!(r360.change_height(Rational::from_int(720), true).width(), Rational::from_int(1280));
    assert_eq!(r360.change_width(Rational::from_int(1280), true).height(), Rational::from_int(720));
    assert_eq!(r360.change_width(Rational::from_int(1280), false).height(), Rational::from_int(360));
    assert_eq!(
        r360.change_ratio(AspectRatio::four_three()).to_pixel_pair(),
        PixelPair::new(480, 360)
    );
    assert_eq!(
        r360.change_ratio(AspectRatio::ultrawide()).to_pixel_pair(),
        PixelPair::new(840, 360)
    );
}

#[test]
fn from_height_is_exact() {
    let r = Resolution::from_height(Rational::from_int(240), AspectRatio::sixteen_nine());
    assert_eq!(r.width(), Rational::new(1280, 3));
    assert_eq!(r.aspect_ratio(), AspectRatio::sixteen_nine());

    let r = Resolution::from_width(Rational::from_int(1280), AspectRatio::sixteen_nine());
    assert_eq!(r.height(), Rational::from_int(720));
    assert_eq!(r.aspect_ratio(), AspectRatio::sixteen_nine());
}

#[test]
fn integer_scale_is_symmetric() {
    let pairs = [
        (r360p(AspectRatio::sixteen_nine()), r720p(AspectRatio::sixteen_nine())),
        (r360p(AspectRatio::four_three()), r480p(AspectRatio::four_three())),
        (r360p(AspectRatio::sixteen_nine()), r720p(AspectRatio::four_three())),
        (r720p(AspectRatio::sixteen_nine()), r720p(AspectRatio::sixteen_nine())),
    ];
    for (a, b) in pairs.iter() {
        assert_eq!(has_integer_scale(a, b), has_integer_scale(b, a));
    }
}

#[test]
fn scale_factor_round_trip() {
    let a = r360p(AspectRatio::sixteen_nine());
    let b = r1080p(AspectRatio::sixteen_nine());
    let forward = get_scale_factor(&a, &b);
    let back = get_scale_factor(&b, &a);
    assert_eq!(forward, Scale2::splat(Rational::from_int(3)));
    assert_eq!(back, Scale2::splat(Rational::new(1, 3)));
    assert_eq!(forward.x.mul(back.x), Rational::from_int(1));
    assert_eq!(forward.y.mul(back.y), Rational::from_int(1));
}

#[test]
fn scale_factor_anisotropic() {
    let a = r360p(AspectRatio::sixteen_nine());
    let b = r360p(AspectRatio::four_three());
    let f = get_scale_factor(&a, &b);
    assert_eq!(f.x, Rational::new(3, 4));
    assert_eq!(f.y, Rational::from_int(1));
}

#[test]
fn value_equality_ignores_form() {
    // Equality by value: the same ratio written two ways compares equal by
    // cross-multiplication, and reduction makes it equal field by field too.
    assert!(Rational::new(32, 18).eq_value(&Rational::new(16, 9)));
    assert!(!Rational::new(32, 18).eq_value(&Rational::new(4, 3)));
    assert_eq!(Rational::new(32, 18), Rational::new(16, 9));
}

#[test]
fn pixel_pair_is_stable() {
    let r = Resolution::from_height(Rational::from_int(240), AspectRatio::sixteen_nine());
    let first = r.to_pixel_pair();
    let second = r.to_pixel_pair();
    assert_eq!(first, second);
    assert_eq!(first, PixelPair::new(427, 240));
}

#[test]
fn dropped_ratio_goes_dynamic() {
    let r360 = r360p(AspectRatio::sixteen_nine());

    let stretched = r360.scale(Scale2::new(Rational::from_int(1), Rational::from_int(2)));
    assert_eq!(stretched.aspect_ratio, AspectRatioMode::Dynamic);
    assert_eq!(stretched.aspect_ratio(), AspectRatio::new(8, 9));

    let doubled = r360.scale(Scale2::splat(Rational::from_int(2)));
    assert!(!doubled.aspect_ratio.is_dynamic());

    let decoupled = r360.change_height(Rational::from_int(720), false);
    assert_eq!(decoupled.aspect_ratio, AspectRatioMode::Dynamic);
    assert_eq!(decoupled.aspect_ratio(), AspectRatio::new(8, 9));

    let decoupled = r360.change_width(Rational::from_int(1280), false);
    assert_eq!(decoupled.aspect_ratio, AspectRatioMode::Dynamic);
    assert_eq!(decoupled.aspect_ratio(), AspectRatio::new(32, 9));
}

#[test]
fn dynamic_resolution_reports_current_shape() {
    let r = Resolution::new(Rational::from_int(640), Rational::from_int(360));
    assert_eq!(r.aspect_ratio(), AspectRatio::sixteen_nine());
    assert!(r.aspect_ratio.is_dynamic());

    let fit = Resolution::new(Rational::from_int(640), Rational::from_int(360));
    assert!(fit.can_fit(&AspectRatio::four_three()));
}
