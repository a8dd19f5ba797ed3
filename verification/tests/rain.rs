use rain_simulator::rain::{step_column, step_row, Rain, RainType, COLUMNS, PARTICLES, ROWS};

fn field(x_limit: i16, y_limit: i16, x: i16) -> Rain {
    Rain::from_samples(x_limit, y_limit, [0i16; ROWS], [x; PARTICLES])
}

#[test]
fn fall_speeds_follow_the_kind() {
    assert_eq!(RainType::Snow.fall_speed(), 3);
    assert_eq!(RainType::Rain.fall_speed(), 4);
    assert_eq!(RainType::Hale.fall_speed(), 5);
}

#[test]
fn a_row_above_the_limit_falls_by_its_speed() {
    assert_eq!(step_row(10, RainType::Hale, 720, RainType::Snow, 7), (15, RainType::Hale));
    assert_eq!(step_row(720, RainType::Rain, 720, RainType::Snow, 7), (724, RainType::Rain));
}

#[test]
fn a_row_past_the_limit_reenters_with_the_current_kind() {
    assert_eq!(step_row(721, RainType::Rain, 720, RainType::Snow, 7), (-7, RainType::Snow));
}

#[test]
fn a_column_moves_with_the_wind() {
    assert_eq!(step_column(100, 3, 1280, false, true), 103);
    assert_eq!(step_column(-5, 0, 1280, false, false), -5);
    assert_eq!(step_column(1280, 0, 1280, false, false), 1280);
}

#[test]
fn snow_drifts_one_pixel() {
    assert_eq!(step_column(100, 3, 1280, true, true), 104);
    assert_eq!(step_column(100, 3, 1280, true, false), 102);
}

#[test]
fn a_column_past_the_right_edge_wraps_left() {
    assert_eq!(step_column(1280, 2, 1280, false, false), -3);
    assert_eq!(step_column(1280, 2, 1280, true, true), -3);
}

#[test]
fn a_column_past_the_left_edge_wraps_right() {
    assert_eq!(step_column(-5, -2, 1280, false, false), 1278);
    assert_eq!(step_column(-5, -2, 1280, true, true), 1278);
}

#[test]
fn samples_lay_out_the_rows() {
    let mut jitter = [0i16; ROWS];
    jitter[5] = -3;
    jitter[6] = 2;
    let mut xs = [0i16; PARTICLES];
    for (j, x) in xs.iter_mut().enumerate() {
        *x = (j % 1280) as i16;
    }
    let rain = Rain::from_samples(1280, 720, jitter, xs);
    let particles = rain.iter_particles();
    assert_eq!(particles.len(), PARTICLES);
    for i in 0..ROWS {
        for c in 0..COLUMNS {
            let k = i * COLUMNS + c;
            let y = -360 + 12 * i as i16 + jitter[i];
            assert_eq!(particles[k], ((k % 1280) as i16, y, RainType::Rain));
        }
    }
    assert_eq!(rain.x_velocity(), 0);
    assert_eq!(rain.current_state(), RainType::Rain);
}

#[test]
fn new_places_particles_within_the_field() {
    let rain = Rain::new(1280, 720);
    let particles = rain.iter_particles();
    assert_eq!(particles.len(), PARTICLES);
    for i in 0..ROWS {
        let start = -360 + 12 * i as i16;
        for c in 0..COLUMNS {
            let (x, y, kind) = particles[i * COLUMNS + c];
            assert!((0..1280).contains(&x));
            assert!(start - 3 <= y && y < start + 3);
            assert_eq!(kind, RainType::Rain);
        }
    }
    assert_eq!(rain.x_velocity(), 0);
    assert_eq!(rain.current_state(), RainType::Rain);
}

#[test]
fn new_draws_spread_out_values() {
    let rain = Rain::new(1280, 720);
    let particles = rain.iter_particles();
    assert!(particles.iter().any(|p| p.0 != 0));
    assert!((0..ROWS).any(|i| particles[i * COLUMNS].1 != -360 + 12 * i as i16 - 3));
}

#[test]
fn update_moves_rows_down_by_their_speed() {
    let mut rain = field(1280, 720, 100);
    rain.update();
    let particles = rain.iter_particles();
    for i in 0..ROWS {
        assert_eq!(particles[i * COLUMNS], (100, -356 + 12 * i as i16, RainType::Rain));
    }
}

#[test]
fn rows_reenter_with_the_new_kind() {
    let mut rain = field(1280, 193, 100);
    rain.set_current_state(RainType::Snow);
    assert_eq!(rain.current_state(), RainType::Snow);
    for _ in 0..11 {
        rain.update();
    }
    let particles = rain.iter_particles();
    let last = particles[63 * COLUMNS];
    assert!((-4..=-1).contains(&last.1));
    assert_eq!(last.2, RainType::Snow);
    let first = particles[0];
    assert_eq!(first.1, -96 + 44);
    assert_eq!(first.2, RainType::Rain);
    for p in &particles {
        assert!((89..=111).contains(&p.0));
        assert_eq!(p.0 % 2, 1);
    }
}

#[test]
fn rows_end_at_most_five_past_the_bottom() {
    let mut rain = Rain::new(640, 480);
    for _ in 0..400 {
        rain.update();
        for p in rain.iter_particles() {
            assert!(p.1 <= 485);
        }
    }
}

#[test]
fn wind_is_clamped() {
    let mut rain = field(1280, 720, 100);
    rain.adjust_wind(3);
    assert_eq!(rain.x_velocity(), 3);
    rain.adjust_wind(100);
    assert_eq!(rain.x_velocity(), 10);
    rain.adjust_wind(-25);
    assert_eq!(rain.x_velocity(), -10);
    rain.adjust_wind(i16::MIN + 10);
    assert_eq!(rain.x_velocity(), -10);
}

#[test]
fn opposite_wind_adjustments_cancel() {
    let mut rain = field(1280, 720, 100);
    rain.adjust_wind(3);
    rain.adjust_wind(4);
    assert_eq!(rain.x_velocity(), 7);
    rain.adjust_wind(-4);
    assert_eq!(rain.x_velocity(), 3);
}

#[test]
fn wind_moves_every_particle() {
    let mut rain = field(1280, 720, 100);
    rain.adjust_wind(5);
    rain.update();
    assert!(rain.iter_particles().iter().all(|p| p.0 == 105));
}

#[test]
fn columns_without_snow_follow_from_the_state() {
    let mut a = field(1280, 720, 100);
    let mut b = field(1280, 720, 100);
    a.adjust_wind(-7);
    b.adjust_wind(-7);
    for _ in 0..50 {
        a.update();
        b.update();
    }
    let pa: Vec<i16> = a.iter_particles().iter().map(|p| p.0).collect();
    let pb: Vec<i16> = b.iter_particles().iter().map(|p| p.0).collect();
    assert_eq!(pa, pb);
}

#[test]
fn particles_stay_in_the_band_on_a_narrow_field() {
    let mut rain = field(5, 720, 0);
    rain.set_current_state(RainType::Snow);
    rain.adjust_wind(10);
    for _ in 0..1000 {
        rain.update();
        assert!(rain.iter_particles().iter().all(|p| (-6..=6).contains(&p.0)));
    }
    rain.adjust_wind(-20);
    for _ in 0..1000 {
        rain.update();
        assert!(rain.iter_particles().iter().all(|p| (-6..=6).contains(&p.0)));
    }
}

#[test]
fn set_x_velocity_sets_the_wind() {
    let mut rain = field(1280, 720, 100);
    rain.set_x_velocity(-7);
    assert_eq!(rain.x_velocity(), -7);
    rain.update();
    assert!(rain.iter_particles().iter().all(|p| p.0 == 93));
}

#[test]
fn every_row_takes_the_current_kind_after_y_limit_frames() {
    for kind in [RainType::Snow, RainType::Hale] {
        let mut rain = Rain::new(640, 193);
        rain.set_current_state(kind);
        for _ in 0..193 {
            rain.update();
        }
        assert!(rain.iter_particles().iter().all(|p| p.2 == kind));
    }
}

#[test]
fn rows_stay_within_their_band() {
    let mut rain = Rain::new(640, 480);
    let floor = -240 - 8 / 4;
    for frame in 0..600 {
        if frame == 100 {
            rain.set_current_state(RainType::Snow);
        }
        if frame == 300 {
            rain.set_current_state(RainType::Hale);
        }
        rain.update();
        for p in rain.iter_particles() {
            assert!(floor <= p.1 && p.1 <= 485);
        }
    }
}

#[test]
fn narrow_and_wide_fields_can_be_made() {
    for x_limit in [1i16, 4, 32757, i16::MAX] {
        let rain = Rain::new(x_limit, 193);
        let particles = rain.iter_particles();
        assert_eq!(particles.len(), PARTICLES);
        assert!(particles.iter().all(|p| 0 <= p.0 && p.0 < x_limit && p.2 == RainType::Rain));
        assert_eq!(rain.x_velocity(), 0);
    }
}

#[test]
fn frames_that_would_overflow_are_reported() {
    let mut rain = field(1280, 720, 100);
    assert!(rain.frame_fits());
    rain.set_x_velocity(i16::MAX);
    assert!(!rain.frame_fits());
    rain.set_x_velocity(i16::MAX - 99);
    assert!(!rain.frame_fits());
    rain.set_x_velocity(i16::MAX - 100);
    assert!(rain.frame_fits());
    rain.set_x_velocity(-106);
    assert!(rain.frame_fits());
    rain.update();
    assert!(rain.iter_particles().iter().all(|p| p.0 == 1279));

    let mut wide = field(i16::MAX, 720, i16::MAX - 1);
    wide.set_x_velocity(1);
    assert!(wide.frame_fits());
    wide.set_current_state(RainType::Snow);
    assert!(!wide.frame_fits());
}

#[test]
fn narrow_fields_drift_under_strong_wind() {
    let mut rain = field(1, 193, 0);
    rain.adjust_wind(10);
    rain.update();
    assert!(rain.iter_particles().iter().all(|p| p.0 == 4));
    rain.update();
    assert!(rain.iter_particles().iter().all(|p| p.0 == 8));
}
