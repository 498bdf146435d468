use orbits::ratio::Ratio;
use orbits::units::length::astrounit::AstroUnit;
use orbits::units::length::meter::Meter;
use orbits::units::length::pixel::Pixel;
use orbits::units::length::{self, DistanceUnit};
use orbits::units::time::frame::Frame;
use orbits::units::time::second::Second;
use orbits::units::time::{self as time_units, TemporalUnit};
use orbits::units::Unit;

#[test]
fn test_conversion_to_pixel() {
    let _au = AstroUnit::new(Ratio::whole(1));

    assert_eq!(length::to::<AstroUnit, Pixel>(), Pixel::new(Ratio::whole(100)))
}

#[test]
fn to_self_is_one_for_every_unit() {
    assert_eq!(length::to::<Meter, Meter>(), Meter::unit());
    assert_eq!(length::to::<AstroUnit, AstroUnit>(), AstroUnit::unit());
    assert_eq!(length::to::<Pixel, Pixel>(), Pixel::new(Ratio::whole(1)));
    assert_eq!(length::to::<Pixel, Pixel>().count(), 1);
    assert_eq!(time_units::to::<Second, Second>(), Second::unit());
    assert_eq!(time_units::to::<Frame, Frame>(), Frame::unit());
    assert_eq!(time_units::to::<Frame, Frame>().value(), Ratio::whole(1));
}

#[test]
fn conversion_factors_between_units() {
    let m = length::to::<AstroUnit, Meter>().value();
    assert_eq!(m.num, 149_600_000_000 * m.den);
    let s = time_units::to::<Frame, Second>().value();
    assert_eq!(s.num * 24, s.den);
    let f = time_units::to::<Second, Frame>().value();
    assert_eq!(f.num, 24 * f.den);
    assert_eq!(length::to::<Meter, Pixel>().count(), 0);
}

#[test]
fn round_trip_between_unrounded_units() {
    let v = AstroUnit::new(Ratio::new(3, 2));
    let m: Meter = length::convert::<AstroUnit, Meter>(v);
    let mv = m.value();
    assert_eq!(mv.num * 2, 3 * 149_600_000_000 * mv.den);
    let back: AstroUnit = length::convert::<Meter, AstroUnit>(m);
    let b = back.value();
    assert_eq!(b.num * 2, 3 * b.den);
}

#[test]
fn astro_unit_to_pixel_is_a_hundred() {
    let p: Pixel = length::convert::<AstroUnit, Pixel>(AstroUnit::new(Ratio::whole(1)));
    assert_eq!(p.count(), Pixel::PER_ASTRO_UNIT);
    let back: AstroUnit = length::convert::<Pixel, AstroUnit>(p);
    let b = back.value();
    assert_eq!(b.num, b.den);
}

#[test]
fn quantized_unit_rounds_to_nearest() {
    assert_eq!(Pixel::new(Ratio::new(26, 10)).count(), 3);
    assert_eq!(Pixel::new(Ratio::new(24, 10)).count(), 2);
    assert_eq!(Pixel::new(Ratio::new(5, 2)).count(), 3);
    assert_eq!(Pixel::new(Ratio::new(0, 7)).count(), 0);
    assert_eq!(Pixel::new(Ratio::whole(u128::MAX)).count(), usize::MAX);
    assert_eq!(Pixel::new(Ratio::new(26, 10)).value(), Ratio::whole(3));
}

#[test]
fn unrounded_unit_keeps_its_value() {
    assert_eq!(Meter::new(Ratio::new(26, 10)).value(), Ratio::new(26, 10));
    assert_eq!(Meter::unit().value(), Ratio::whole(1));
    assert_eq!(Pixel::unit().count(), 1);
}

#[test]
fn unit_arithmetic() {
    let m = Meter::new(Ratio::new(3, 2));
    assert_eq!(m.times(Ratio::whole(4)).value(), Ratio::new(12, 2));
    assert_eq!(Meter::scalar_times(Ratio::whole(4), m).value(), Ratio::new(12, 2));
    assert_eq!(m.divided_by(Ratio::whole(3)).value(), Ratio::new(3, 6));
    assert_eq!(Meter::scalar_over(Ratio::whole(3), m).value(), Ratio::new(6, 3));
    let p = Pixel::new(Ratio::whole(5));
    assert_eq!(p.divided_by(Ratio::whole(2)).count(), 3);
    assert_eq!(p.times(Ratio::new(1, 3)).count(), 2);
    assert_eq!(Pixel::scalar_over(Ratio::whole(7), p).count(), 1);
}

#[test]
fn named_length_helpers() {
    let au = AstroUnit::new(Ratio::whole(2));
    let k = length::kilometer(au).value();
    assert_eq!(k.num, 299_200_000 * k.den);
    let m = length::meter(au).value();
    assert_eq!(m.num, 299_200_000_000 * m.den);
    let c = length::centimeter(Meter::new(Ratio::whole(2))).value();
    assert_eq!(c.num, 200 * c.den);
    let mm = length::millimeter(Meter::new(Ratio::whole(2))).value();
    assert_eq!(mm.num, 2000 * mm.den);
    assert_eq!(length::centimeter(Meter::new(Ratio::whole(1))), Meter::new(Ratio::whole(100)));
    assert_eq!(length::millimeter(Meter::new(Ratio::whole(1))), Meter::new(Ratio::whole(1000)));
    assert_eq!(<Pixel as DistanceUnit>::meter_constant(), Ratio::whole(1_496_000_000));
}

#[test]
fn named_time_helpers() {
    let d = Second::new(Ratio::whole(172_800));
    let days = time_units::day(d).value();
    assert_eq!(days.num, 2 * days.den);
    let h = time_units::hour(d).value();
    assert_eq!(h.num, 48 * h.den);
    let mi = time_units::minute(Second::new(Ratio::whole(120))).value();
    assert_eq!(mi.num, 2 * mi.den);
    let s = time_units::second(Frame::new(Ratio::whole(48))).value();
    assert_eq!(s.num, 2 * s.den);
    let w = time_units::week(Second::new(Ratio::whole(1_209_600))).value();
    assert_eq!(w.num, 2 * w.den);
    let mo = time_units::month(Second::new(Ratio::whole(2_419_200))).value();
    assert_eq!(mo.num, mo.den);
    let y = time_units::year(Second::new(Ratio::whole(29_030_400))).value();
    assert_eq!(y.num, y.den);
    assert_eq!(<Frame as TemporalUnit>::second_constant(), Ratio::new(1, 24));
}

#[test]
fn round_trip_between_units_of_time() {
    let v = Second::new(Ratio::new(7, 3));
    let f: Frame = time_units::convert::<Second, Frame>(v);
    let fv = f.value();
    assert_eq!(fv.num * 3, 7 * 24 * fv.den);
    let back: Second = time_units::convert::<Frame, Second>(f);
    let b = back.value();
    assert_eq!(b.num * 3, 7 * b.den);
}

#[test]
fn exact_factor_is_not_rounded() {
    let k = length::factor::<Meter, Pixel>();
    assert_eq!(k.num * 1_496_000_000, k.den);
    let k = length::factor::<AstroUnit, Pixel>();
    assert_eq!(k.num, 100 * k.den);
    let k = time_units::factor::<Frame, Frame>();
    assert_eq!(k.num, k.den);
}

#[test]
fn equal_numbers_compare_equal() {
    assert_eq!(Ratio::new(2, 4), Ratio::new(1, 2));
    assert_ne!(Ratio::new(1, 3), Ratio::new(1, 2));
    assert_eq!(Ratio::new(0, 5), Ratio::whole(0));
    assert_eq!(Ratio::new(u128::MAX, u128::MAX), Ratio::whole(1));
    assert_ne!(Ratio::new(u128::MAX, u128::MAX - 1), Ratio::new(u128::MAX - 1, u128::MAX - 2));
    assert_eq!(Ratio::new(u128::MAX - 1, u128::MAX / 2), Ratio::whole(2));
    assert_eq!(Meter::new(Ratio::new(6, 4)), Meter::new(Ratio::new(3, 2)));
    assert_ne!(Meter::new(Ratio::new(6, 4)), Meter::new(Ratio::new(3, 4)));
    assert_eq!(Frame::new(Ratio::new(24, 24)), Frame::unit());
}

#[test]
fn negative_values() {
    assert_eq!(Ratio::negative(0, 3), Ratio::whole(0));
    assert_ne!(Ratio::negative(1, 2), Ratio::new(1, 2));
    assert_eq!(Ratio::negative(2, 4), Ratio::new(1, 2).negate());
    assert_eq!(Ratio::negative(3, 2).times(Ratio::negative(2, 1)), Ratio::whole(3));
    let m = Meter::new(Ratio::negative(3, 2));
    assert_eq!(m.times(Ratio::whole(2)), Meter::new(Ratio::negative(3, 1)));
    assert_eq!(m.divided_by(Ratio::negative(1, 2)), Meter::new(Ratio::whole(3)));
    let au: AstroUnit = length::convert::<Meter, AstroUnit>(Meter::new(Ratio::negative(149_600_000_000, 1)));
    assert_eq!(au, AstroUnit::new(Ratio::negative(1, 1)));
    assert_eq!(Pixel::new(Ratio::negative(26, 10)).count(), 0);
    assert_eq!(Pixel::new(Ratio::negative(1, 10)).count(), 0);
}

#[test]
fn round_trip_through_pixels_drifts_at_most_half_a_pixel() {
    let v = Meter::new(Ratio::whole(1_000_000_000));
    let p: Pixel = length::convert::<Meter, Pixel>(v);
    assert_eq!(p.count(), 1);
    let back: Meter = length::convert::<Pixel, Meter>(p);
    assert_eq!(back, Meter::new(Ratio::whole(1_496_000_000)));
    let exact: AstroUnit = length::convert::<Pixel, AstroUnit>(Pixel::new(Ratio::whole(150)));
    assert_eq!(exact, AstroUnit::new(Ratio::new(3, 2)));
}
