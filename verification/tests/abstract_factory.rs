use creational_patterns::abstract_factory::{
    bulb_switch_and_report, family_for_name, fan_switch_and_report, run_family_demo, DemoReport,
    DeviceError, DeviceFactory, DeviceFamily, Fan, FanSpeed, IpAddress, LightBulb, PhilipsSensor,
    SamsungSensor,
};

fn philips() -> PhilipsSensor {
    PhilipsSensor {
        brand: String::from("Philips"),
        ip: IpAddress::V6(0, 0, 0, 0, 0, 0, 1, 1),
        port: 8080,
    }
}

fn samsung() -> SamsungSensor {
    SamsungSensor {
        brand: String::from("Samsung"),
        ip: IpAddress::V6(0, 0, 0, 0, 0, 0, 0, 1),
        port: 3000,
    }
}

#[test]
fn philips_light_bulb_switch_on_then_off() {
    let factory = philips();
    let mut bulb = factory.create_light_bulb().unwrap();
    assert!(!bulb.is_switched_on().unwrap());
    assert_eq!(bulb.switch(true), Ok(true));
    assert!(bulb.is_switched_on().unwrap());
    assert_eq!(bulb.switch(false), Ok(true));
    assert!(!bulb.is_switched_on().unwrap());
}

#[test]
fn samsung_light_bulb_switch_on_then_off() {
    let factory = samsung();
    let mut bulb = factory.create_light_bulb().unwrap();
    assert!(!bulb.is_switched_on().unwrap());
    assert_eq!(bulb.switch(true), Ok(true));
    assert!(bulb.is_switched_on().unwrap());
    assert_eq!(bulb.switch(false), Ok(true));
    assert!(!bulb.is_switched_on().unwrap());
}

#[test]
fn philips_fan_is_on_exactly_above_speed_zero() {
    let factory = philips();
    let levels = [
        (FanSpeed::Speed0, false),
        (FanSpeed::Speed1, true),
        (FanSpeed::Speed2, true),
        (FanSpeed::Speed3, true),
        (FanSpeed::Speed4, true),
        (FanSpeed::Speed5, true),
    ];
    for (level, expect_on) in levels {
        let mut fan = factory.create_fan().unwrap();
        assert_eq!(fan.switch(level), Ok(true));
        assert_eq!(fan.is_switched_on().unwrap(), expect_on);
    }
}

#[test]
fn samsung_fan_is_on_exactly_above_speed_zero() {
    let factory = samsung();
    let levels = [
        (FanSpeed::Speed0, false),
        (FanSpeed::Speed1, true),
        (FanSpeed::Speed2, true),
        (FanSpeed::Speed3, true),
        (FanSpeed::Speed4, true),
        (FanSpeed::Speed5, true),
    ];
    for (level, expect_on) in levels {
        let mut fan = factory.create_fan().unwrap();
        assert_eq!(fan.switch(level), Ok(true));
        assert_eq!(fan.is_switched_on().unwrap(), expect_on);
    }
}

#[test]
fn fresh_devices_start_switched_off() {
    let bulb = philips().create_light_bulb().unwrap();
    assert!(!bulb.is_switched_on().unwrap());
    let fan = samsung().create_fan().unwrap();
    assert!(!fan.is_switched_on().unwrap());
}

#[test]
fn devices_share_the_factory_configuration() {
    let factory = philips();
    let bulb = factory.create_light_bulb().unwrap();
    assert_eq!(bulb.sensor_config.brand, "Philips");
    assert_eq!(bulb.sensor_config.ip, IpAddress::V6(0, 0, 0, 0, 0, 0, 1, 1));
    assert_eq!(bulb.sensor_config.port, 8080);
    let fan = factory.create_fan().unwrap();
    assert_eq!(fan.sensor_config.brand, "Philips");
    assert_eq!(fan.sensor_config.port, 8080);
}

#[test]
fn known_families_are_selected() {
    assert_eq!(family_for_name("Samsung"), Ok(DeviceFamily::Samsung));
    assert_eq!(family_for_name("Philips"), Ok(DeviceFamily::Philips));
}

#[test]
fn unknown_family_is_rejected() {
    assert_eq!(family_for_name("LG"), Err(DeviceError::UnknownFamily));
    assert_eq!(family_for_name(""), Err(DeviceError::UnknownFamily));
    assert_eq!(family_for_name("samsung"), Err(DeviceError::UnknownFamily));
    assert_eq!(family_for_name("Philips "), Err(DeviceError::UnknownFamily));
}

#[test]
fn switch_and_report_echoes_the_command() {
    let mut bulb = philips().create_light_bulb().unwrap();
    assert!(bulb_switch_and_report(&mut bulb, true));
    assert!(!bulb_switch_and_report(&mut bulb, false));
    let mut fan = samsung().create_fan().unwrap();
    assert!(!fan_switch_and_report(&mut fan, FanSpeed::Speed0));
    assert!(fan_switch_and_report(&mut fan, FanSpeed::Speed5));
}

#[test]
fn demo_observes_the_same_transitions_for_both_families() {
    let expected = DemoReport {
        bulb_before_switch: false,
        bulb_after_switch: true,
        fan_before_switch: false,
        fan_after_switch: true,
    };
    assert_eq!(run_family_demo(&samsung()), Ok(expected));
    assert_eq!(run_family_demo(&philips()), Ok(expected));
}
