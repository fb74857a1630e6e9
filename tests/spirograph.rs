use spirograph::controller::{
    Action, Controller, Msg, DEFAULT_K, DEFAULT_L, ORIGIN, RADIUS, STEP, CANVAS_SIZE,
};
use spirograph::curve::{clamp_ratio, Sample, Spirograph, SpirographIter, RATIO_MAX, RATIO_MIN};

#[test]
fn three_steps_from_zero() {
    let mut g = Spirograph::new(22, 46, 150).iter(15);
    let a = g.next();
    let b = g.next();
    let c = g.next();
    assert_eq!(a.t, 0);
    assert_eq!(b.t, 15);
    assert_eq!(c.t, 30);
    for p in [a, b, c] {
        assert_eq!(p.s, Spirograph { l: 22, k: 46, r: 150 });
    }
    assert_eq!(g.now, 45);
    assert_eq!(g.width, 15);
}

#[test]
fn n_steps_advance_by_n_widths() {
    let mut g = Spirograph::new(50, 30, 100).iter(7);
    for _ in 0..1000 {
        g.next();
    }
    assert_eq!(g.now, 7000);
    assert_eq!(g.s, Spirograph { l: 50, k: 30, r: 100 });
}

#[test]
fn reset_returns_to_zero() {
    let mut g = Spirograph::new(22, 46, 150).iter(15);
    for _ in 0..17 {
        g.next();
    }
    let s = Spirograph::new(10, 20, 150);
    g.reset(s);
    assert_eq!(g, SpirographIter { s, now: 0, width: 15 });
    g.reset(s);
    assert_eq!(g.now, 0);
    assert_eq!(g.next(), Sample { s, t: 0 });
}

#[test]
fn clamp_keeps_values_in_range() {
    assert_eq!(clamp_ratio(0), RATIO_MIN);
    assert_eq!(clamp_ratio(-5), 1);
    assert_eq!(clamp_ratio(i64::MIN), 1);
    assert_eq!(clamp_ratio(1), 1);
    assert_eq!(clamp_ratio(46), 46);
    assert_eq!(clamp_ratio(99), 99);
    assert_eq!(clamp_ratio(100), RATIO_MAX);
    assert_eq!(clamp_ratio(i64::MAX), 99);
}

#[test]
fn initial_controller() {
    let c = Controller::new();
    assert_eq!(c.spirograph.s, Spirograph { l: DEFAULT_L, k: DEFAULT_K, r: RADIUS });
    assert_eq!(c.spirograph.s, Spirograph { l: 22, k: 46, r: 150 });
    assert_eq!(c.spirograph.now, 0);
    assert_eq!(c.spirograph.width, STEP);
    assert_eq!(STEP, 15);
    assert_eq!(ORIGIN * 2, CANVAS_SIZE);
}

#[test]
fn tick_draws_current_sample() {
    let mut c = Controller::new();
    let s = Spirograph { l: 22, k: 46, r: 150 };
    assert_eq!(c.update(Msg::Tick), Action::LineTo(Sample { s, t: 0 }));
    assert_eq!(c.update(Msg::Tick), Action::LineTo(Sample { s, t: 15 }));
    assert_eq!(c.update(Msg::Tick), Action::LineTo(Sample { s, t: 30 }));
    assert_eq!(c.spirograph.now, 45);
}

#[test]
fn k_change_of_zero_is_clamped() {
    let mut c = Controller::new();
    assert_eq!(c.update(Msg::KSlider(0)), Action::NewCanvas);
    assert_eq!(c.spirograph.s.k, 1);
    assert_eq!(c.spirograph.s.l, 22);
}

#[test]
fn l_change_restarts_curve() {
    let mut c = Controller::new();
    for _ in 0..5 {
        c.update(Msg::Tick);
    }
    assert_eq!(c.spirograph.now, 75);
    assert_eq!(c.update(Msg::LSlider(70)), Action::NewCanvas);
    let s = Spirograph { l: 70, k: 46, r: 150 };
    assert_eq!(c.update(Msg::Tick), Action::LineTo(Sample { s, t: 0 }));
}

#[test]
fn k_change_restarts_curve() {
    let mut c = Controller::new();
    for _ in 0..3 {
        c.update(Msg::Tick);
    }
    assert_eq!(c.update(Msg::KSlider(250)), Action::NewCanvas);
    let s = Spirograph { l: 22, k: 99, r: 150 };
    assert_eq!(c.spirograph.now, 0);
    assert_eq!(c.update(Msg::Tick), Action::LineTo(Sample { s, t: 0 }));
    assert_eq!(c.update(Msg::Tick), Action::LineTo(Sample { s, t: 15 }));
}

#[test]
fn l_change_of_out_of_range_reading() {
    let mut c = Controller::new();
    c.update(Msg::LSlider(-40));
    assert_eq!(c.spirograph.s.l, 1);
    c.update(Msg::LSlider(1000));
    assert_eq!(c.spirograph.s.l, 99);
    assert_eq!(c.spirograph.s.k, 46);
}
