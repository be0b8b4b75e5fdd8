use elevator_optimization::motor_samples::MotorProperties;

fn fx(x: f64) -> i64 {
    (x * 1_000_000.0).round() as i64
}

/// A bench run of 42 evenly spaced rows that ends at 61.518809 A and
/// 299.541699 rpm, at a torque of 785.
fn bench_run() -> Vec<MotorProperties> {
    let mut rows = Vec::new();
    for i in 0..42i64 {
        rows.push(MotorProperties {
            _i: i as i32,
            kwp_in: 4_000_000 + i * 500_000,
            efficiency: 84_900_000 + i * 100_000,
            voltage: 380_000_000,
            current: 11_247_438 + i * 1_226_131,
            rpm: 56_426_131 + i * 5_929_648,
            tnm: 785_000_000,
            ih: i * 1000,
            mo: -i * 1000,
        });
    }
    rows
}

#[test]
fn motor_properties_get_max_rpm() {
    let motor_properties = bench_run();
    let rpm = (MotorProperties::get_max_rpm(&motor_properties) / 1_000_000) as i32;
    println!("Max RPM: {}", rpm);
    assert!(rpm == 299);
}

#[test]
fn motor_properties_get_max_current() {
    let motor_properties = bench_run();
    let current = (MotorProperties::get_max_current(&motor_properties) / 1_000_000) as i32;
    println!("Max Current: {}", current);
    assert!(current == 61);
}

#[test]
fn motor_properties_get_max_tnm() {
    let motor_properties = bench_run();
    let tnm = (MotorProperties::get_max_tnm(&motor_properties) / 1_000_000) as i32;
    println!("Max torque: {}", tnm);
    assert!(tnm == 785);
}

#[test]
fn motor_properties_max_current_closest() {
    let motor_properties = bench_run();
    let current = MotorProperties::get_max_current(&motor_properties);
    let idx = MotorProperties::find_smaller_closest(&motor_properties, current);
    assert!(idx == motor_properties.len() - 2);
}

#[test]
fn motor_properties_min_current_closest() {
    let motor_properties = bench_run();
    let current = 0;
    let idx = MotorProperties::find_smaller_closest(&motor_properties, current);
    assert!(idx == 0);
}

#[test]
fn motor_properties_current_closest() {
    let motor_properties = bench_run();
    let current = fx(18.5);
    let idx = MotorProperties::find_smaller_closest(&motor_properties, current);
    println!("Closest index: {}", idx);
    assert!(idx == 5);
}

#[test]
fn motor_properties_simulate_properties_rpm() {
    let motor_properties = bench_run();
    // currents -> 60.292678, 61.518809
    // rpm -> 293.612051, 299.541699
    // tnm -> 785, 785
    let current = fx(61.);
    let new_property =
        MotorProperties::simulate_properties_from_current(&motor_properties, current).unwrap();
    assert!(fx(297.) < new_property.rpm && new_property.rpm < fx(298.));
}

#[test]
fn motor_properties_simulate_properties_tnm() {
    let motor_properties = bench_run();
    let current = fx(61.);
    let new_property =
        MotorProperties::simulate_properties_from_current(&motor_properties, current).unwrap();
    assert!(new_property.tnm == fx(785.));
    assert!(fx(88.94) < new_property.efficiency && new_property.efficiency < fx(88.96));
}

#[test]
fn motor_properties_simulate_properties_efficiency() {
    let motor_properties = bench_run();
    let current = fx(61.);
    let new_property =
        MotorProperties::simulate_properties_from_current(&motor_properties, current).unwrap();
    assert!(fx(88.94) < new_property.efficiency && new_property.efficiency < fx(88.96));
}

#[test]
fn motor_properties_read_motor_samples() {
    assert_eq!(MotorProperties::check_properties(&bench_run()), Ok(()));
}
