use elevator_optimization::error::ConfigError;
use elevator_optimization::motor_samples::{MotorProperties, MotorSamples};

fn fx(x: f64) -> i64 {
    (x * 1_000_000.0).round() as i64
}

fn row(current: i64, rpm: i64, tnm: i64, voltage: i64) -> MotorSamples {
    MotorSamples { _i: 0, kwp_in: 0, efficiency: 0, voltage, current, rpm, tnm, ih: 0, mo: 0 }
}

/// Two rows: no current and no speed, then 10 A and 100 rpm.
fn two_rows() -> Vec<MotorSamples> {
    vec![
        MotorSamples {
            _i: 0,
            kwp_in: fx(1.0),
            efficiency: fx(80.0),
            voltage: fx(100.0),
            current: 0,
            rpm: 0,
            tnm: fx(10.0),
            ih: 7,
            mo: -9,
        },
        MotorSamples {
            _i: 1,
            kwp_in: fx(3.0),
            efficiency: fx(90.0),
            voltage: fx(100.0),
            current: fx(10.0),
            rpm: fx(100.0),
            tnm: fx(10.0),
            ih: 10,
            mo: -3,
        },
    ]
}

/// A bench run of 42 evenly spaced rows that ends at 61.518809 A and
/// 299.541699 rpm, at a torque of 785.
fn bench_run() -> Vec<MotorSamples> {
    let mut rows = Vec::new();
    for i in 0..42i64 {
        rows.push(MotorSamples {
            _i: i as i32,
            kwp_in: 4_000_000 + i * 500_000,
            efficiency: 84_900_000 + i * 100_000,
            voltage: 380_000_000,
            current: 11_247_438 + i * 1_226_131,
            rpm: 56_426_131 + i * 5_929_648,
            tnm: 785_000_000,
            ih: i * 1000,
            mo: -i * 1000,
        });
    }
    rows
}

#[test]
fn motor_samples_read_motor_samples() {
    assert_eq!(MotorSamples::check_properties(&bench_run()), Ok(()));
}

#[test]
fn motor_samples_get_max_rpm() {
    let motor_samples = bench_run();
    let rpm = (MotorSamples::get_max_rpm(&motor_samples) / 1_000_000) as i32;
    println!("Max RPM: {}", rpm);
    assert!(rpm == 299);
}

#[test]
fn motor_samples_get_max_current() {
    let motor_samples = bench_run();
    let current = (MotorSamples::get_max_current(&motor_samples) / 1_000_000) as i32;
    println!("Max Current: {}", current);
    assert!(current == 61);
}

#[test]
fn motor_samples_get_max_tnm() {
    let motor_samples = bench_run();
    let tnm = (MotorSamples::get_max_tnm(&motor_samples) / 1_000_000) as i32;
    println!("Max torque: {}", tnm);
    assert!(tnm == 785);
}

#[test]
fn motor_samples_max_current_closest() {
    let motor_samples = bench_run();
    let current = MotorSamples::get_max_current(&motor_samples);
    let idx = MotorSamples::find_smaller_closest(&motor_samples, current);
    assert!(idx == motor_samples.len() - 2);
}

#[test]
fn motor_samples_min_current_closest() {
    let motor_samples = bench_run();
    let current = 0;
    let idx = MotorSamples::find_smaller_closest(&motor_samples, current);
    assert!(idx == 0);
}

#[test]
fn motor_samples_current_closest() {
    let motor_samples = bench_run();
    let current = fx(18.5);
    let idx = MotorSamples::find_smaller_closest(&motor_samples, current);
    println!("Closest index: {}", idx);
    assert!(idx == 5);
}

#[test]
fn motor_samples_simulate_properties_rpm() {
    let motor_samples = bench_run();
    // currents -> 60.292678, 61.518809
    // rpm -> 293.612051, 299.541699
    // tnm -> 785, 785
    let current = fx(61.);
    let new_property =
        MotorSamples::simulate_properties_from_current(&motor_samples, current).unwrap();
    assert!(fx(297.) < new_property.rpm && new_property.rpm < fx(298.));
}

#[test]
fn motor_samples_simulate_properties_tnm() {
    let motor_samples = bench_run();
    let current = fx(61.);
    let new_property =
        MotorSamples::simulate_properties_from_current(&motor_samples, current).unwrap();
    assert!(new_property.tnm == fx(785.));
    assert!(fx(88.94) < new_property.efficiency && new_property.efficiency < fx(88.96));
}

#[test]
fn motor_samples_simulate_properties_efficiency() {
    let motor_samples = bench_run();
    let current = fx(61.);
    let new_property =
        MotorSamples::simulate_properties_from_current(&motor_samples, current).unwrap();
    assert!(fx(88.94) < new_property.efficiency && new_property.efficiency < fx(88.96));
}

#[test]
fn simulate_on_the_bench_run_is_exact() {
    let point = MotorSamples::simulate_properties_from_current(&bench_run(), fx(61.)).unwrap();
    let expected = MotorSamples {
        _i: 0,
        kwp_in: 24_288_436,
        efficiency: 88_957_687,
        voltage: 380_000_000,
        current: 61_000_000,
        rpm: 297_032_705,
        tnm: 785_000_000,
        ih: 40_576,
        mo: -40_576,
    };
    assert_eq!(point, expected);
}

#[test]
fn simulate_halfway_between_two_rows() {
    let point = MotorSamples::simulate_properties_from_current(&two_rows(), fx(5.0)).unwrap();
    assert_eq!(point.rpm, fx(50.0));
    assert_eq!(point.tnm, fx(10.0));
    let expected = MotorSamples {
        _i: 0,
        kwp_in: fx(2.0),
        efficiency: fx(85.0),
        voltage: fx(100.0),
        current: fx(5.0),
        rpm: fx(50.0),
        tnm: fx(10.0),
        ih: 8,
        mo: -6,
    };
    assert_eq!(point, expected);
}

#[test]
fn simulate_keeps_the_requested_current() {
    let point = MotorSamples::simulate_properties_from_current(&two_rows(), 3_333_333).unwrap();
    assert_eq!(point.current, 3_333_333);
    assert_eq!(point.rpm, 33_333_330);
    assert_eq!(point.kwp_in, 1_666_666);
    assert_eq!(point.efficiency, 83_333_333);
    assert_eq!(point.mo, -8);
}

#[test]
fn simulate_at_the_ends_of_the_range() {
    let table = two_rows();
    let top = MotorSamples::simulate_properties_from_current(&table, fx(10.0)).unwrap();
    assert_eq!(top, MotorSamples { _i: 0, ..table[1] });
    let bottom = MotorSamples::simulate_properties_from_current(&table, fx(-10.0)).unwrap();
    assert_eq!(bottom.rpm, fx(-100.0));
    assert_eq!(bottom.kwp_in, fx(-1.0));
    assert_eq!(bottom.efficiency, fx(70.0));
    assert_eq!(bottom.tnm, fx(10.0));
    assert_eq!(bottom.voltage, fx(100.0));
    assert_eq!(bottom.current, fx(-10.0));
}

#[test]
fn simulate_beyond_the_greatest_current_gives_nothing() {
    let table = two_rows();
    assert_eq!(MotorSamples::simulate_properties_from_current(&table, fx(10.0) + 1), None);
    assert_eq!(MotorSamples::simulate_properties_from_current(&table, fx(-10.0) - 1), None);
    assert_eq!(MotorSamples::simulate_properties_from_current(&table, i64::MAX), None);
    assert_eq!(MotorSamples::simulate_properties_from_current(&table, i64::MIN), None);
}

#[test]
fn simulate_needs_two_rows() {
    let one = vec![row(fx(5.0), fx(50.0), fx(10.0), fx(100.0))];
    assert_eq!(MotorSamples::check_properties(&one), Ok(()));
    assert_eq!(MotorSamples::simulate_properties_from_current(&one, fx(5.0)), None);
    assert_eq!(MotorSamples::simulate_properties_from_current(&Vec::new(), 0), None);
}

#[test]
fn simulate_on_a_table_of_negative_currents_gives_nothing() {
    let table = vec![
        row(fx(-5.0), fx(-50.0), fx(10.0), fx(100.0)),
        row(fx(-1.0), fx(-10.0), fx(10.0), fx(100.0)),
    ];
    assert_eq!(MotorSamples::get_max_current(&table), fx(-1.0));
    assert_eq!(MotorSamples::simulate_properties_from_current(&table, fx(-1.0)), None);
    assert_eq!(MotorSamples::simulate_properties_from_current(&table, 0), None);
}

#[test]
fn simulate_on_a_repeated_current_takes_the_first_row() {
    let table = vec![
        row(fx(5.0), fx(50.0), fx(10.0), fx(100.0)),
        row(fx(5.0), fx(70.0), fx(10.0), fx(100.0)),
    ];
    let point = MotorSamples::simulate_properties_from_current(&table, fx(5.0)).unwrap();
    assert_eq!(point.rpm, fx(50.0));
    let point = MotorSamples::simulate_properties_from_current(&table, fx(2.0)).unwrap();
    assert_eq!(point.rpm, fx(50.0));
}

#[test]
fn torque_and_voltage_are_the_tables_at_every_current() {
    let table = bench_run();
    let mut current = -61_518_809;
    while current <= 61_518_809 {
        let point = MotorSamples::simulate_properties_from_current(&table, current).unwrap();
        assert_eq!(point.tnm, 785_000_000);
        assert_eq!(point.voltage, 380_000_000);
        assert_eq!(point.current, current);
        current += 777_777;
    }
}

#[test]
fn check_properties_refuses_an_empty_table() {
    assert_eq!(MotorSamples::check_properties(&Vec::new()), Err(ConfigError::NoSamples));
}

#[test]
fn check_properties_refuses_unsorted_currents() {
    let table = vec![
        row(fx(1.0), 0, fx(10.0), fx(100.0)),
        row(fx(3.0), 0, fx(10.0), fx(100.0)),
        row(fx(2.0), 0, fx(10.0), fx(100.0)),
    ];
    assert_eq!(MotorSamples::check_properties(&table), Err(ConfigError::UnsortedCurrent));
}

#[test]
fn check_properties_looks_at_the_order_before_the_constants() {
    let table = vec![
        row(fx(1.0), 0, fx(10.0), fx(100.0)),
        row(fx(3.0), 0, fx(11.0), fx(101.0)),
        row(fx(2.0), 0, fx(10.0), fx(100.0)),
    ];
    assert_eq!(MotorSamples::check_properties(&table), Err(ConfigError::UnsortedCurrent));
}

#[test]
fn check_properties_refuses_a_varying_voltage() {
    let table = vec![
        row(fx(1.0), 0, fx(10.0), fx(100.0)),
        row(fx(2.0), 0, fx(10.0), fx(100.0)),
        row(fx(3.0), 0, fx(10.0), fx(100.000001)),
    ];
    assert_eq!(MotorSamples::check_properties(&table), Err(ConfigError::VoltageVaries));
}

#[test]
fn check_properties_refuses_a_varying_torque() {
    let table = vec![
        row(fx(1.0), 0, fx(10.0), fx(100.0)),
        row(fx(2.0), 0, fx(10.000001), fx(100.0)),
        row(fx(3.0), 0, fx(10.000001), fx(100.0)),
    ];
    assert_eq!(MotorSamples::check_properties(&table), Err(ConfigError::TorqueVaries));
}

#[test]
fn check_properties_reports_the_first_row_that_differs() {
    let torque_first = vec![
        row(fx(1.0), 0, fx(10.0), fx(100.0)),
        row(fx(2.0), 0, fx(11.0), fx(100.0)),
        row(fx(3.0), 0, fx(11.0), fx(101.0)),
    ];
    assert_eq!(MotorSamples::check_properties(&torque_first), Err(ConfigError::TorqueVaries));
    let both_at_once = vec![
        row(fx(1.0), 0, fx(10.0), fx(100.0)),
        row(fx(2.0), 0, fx(11.0), fx(101.0)),
    ];
    assert_eq!(MotorSamples::check_properties(&both_at_once), Err(ConfigError::VoltageVaries));
}

#[test]
fn check_properties_accepts_repeated_currents() {
    let table = vec![
        row(fx(1.0), 0, fx(10.0), fx(100.0)),
        row(fx(1.0), 5, fx(10.0), fx(100.0)),
        row(fx(3.0), 3, fx(10.0), fx(100.0)),
    ];
    assert_eq!(MotorSamples::check_properties(&table), Ok(()));
}

#[test]
fn maxima_are_the_greatest_entries_of_their_columns() {
    let table = vec![
        row(fx(-3.0), fx(-7.0), fx(-2.0), fx(100.0)),
        row(fx(-2.0), fx(-9.0), fx(-2.0), fx(100.0)),
        row(fx(-1.0), fx(-8.0), fx(-2.0), fx(100.0)),
    ];
    assert_eq!(MotorSamples::get_max_rpm(&table), fx(-7.0));
    assert_eq!(MotorSamples::get_max_current(&table), fx(-1.0));
    assert_eq!(MotorSamples::get_max_tnm(&table), fx(-2.0));

    let table = two_rows();
    assert_eq!(MotorSamples::get_max_rpm(&table), fx(100.0));
    assert_eq!(MotorSamples::get_max_current(&table), fx(10.0));
    assert_eq!(MotorSamples::get_max_tnm(&table), fx(10.0));
}

#[test]
fn maxima_of_an_empty_table_are_zero() {
    let table: Vec<MotorSamples> = Vec::new();
    assert_eq!(MotorSamples::get_max_rpm(&table), 0);
    assert_eq!(MotorSamples::get_max_current(&table), 0);
    assert_eq!(MotorSamples::get_max_tnm(&table), 0);
}

#[test]
fn find_smaller_closest_brackets_the_current() {
    let table = bench_run();
    for i in 0..41usize {
        let at_row = table[i].current;
        assert_eq!(MotorSamples::find_smaller_closest(&table, at_row), i);
        assert_eq!(MotorSamples::find_smaller_closest(&table, at_row + 1), i);
        if i > 0 {
            assert_eq!(MotorSamples::find_smaller_closest(&table, at_row - 1), i - 1);
        }
    }
    assert_eq!(MotorSamples::find_smaller_closest(&table, table[41].current), 40);
    assert_eq!(MotorSamples::find_smaller_closest(&table, i64::MAX), 40);
    assert_eq!(MotorSamples::find_smaller_closest(&table, table[0].current - 1), 0);
    assert_eq!(MotorSamples::find_smaller_closest(&table, i64::MIN), 0);
}

#[test]
fn find_smaller_closest_takes_the_last_of_equal_currents() {
    let table = vec![
        row(fx(1.0), 0, 0, 0),
        row(fx(2.0), 0, 0, 0),
        row(fx(2.0), 0, 0, 0),
        row(fx(3.0), 0, 0, 0),
        row(fx(3.0), 0, 0, 0),
    ];
    assert_eq!(MotorSamples::find_smaller_closest(&table, fx(2.0)), 2);
    assert_eq!(MotorSamples::find_smaller_closest(&table, fx(2.5)), 2);
    assert_eq!(MotorSamples::find_smaller_closest(&table, fx(3.0)), 3);
    assert_eq!(MotorSamples::find_smaller_closest(&table, fx(1.5)), 0);
}

#[test]
fn find_smaller_closest_on_short_tables() {
    assert_eq!(MotorSamples::find_smaller_closest(&Vec::new(), 5), 0);
    assert_eq!(MotorSamples::find_smaller_closest(&vec![row(1, 0, 0, 0)], 5), 0);
    assert_eq!(MotorSamples::find_smaller_closest(&two_rows(), fx(20.0)), 0);
}

#[test]
fn motor_properties_names_the_same_rows() {
    let table: Vec<MotorProperties> = two_rows();
    assert_eq!(MotorProperties::get_max_rpm(&table), fx(100.0));
    let point = MotorProperties::simulate_properties_from_current(&table, fx(5.0)).unwrap();
    assert_eq!(point.rpm, fx(50.0));
}
