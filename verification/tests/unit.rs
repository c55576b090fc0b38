use nvml_rs::error::{ErrorKind, Status};
use nvml_rs::query::{Query, UnitAttribute};
use nvml_rs::reply::{Fan, Payload, Reply};
use nvml_rs::session::NVML;
use nvml_rs::text::zeroed;
use nvml_rs::unit::{LedState, PsuInfo, Unit, UnitInfo};

const UNEXPECTED: &str = "the reply does not hold what was asked for";
const OVERLONG: &str = "the driver counted more entries than the array holds";

fn succeeded(payload: Payload) -> Reply {
    Reply::new(Status::new(0, "Success"), payload)
}

fn failed(code: u32, text: &str) -> Reply {
    Reply::new(Status::new(code, text), Payload::Nothing)
}

fn field(content: &str, capacity: usize) -> Vec<u8> {
    let mut buffer = zeroed(capacity);
    buffer[..content.len()].copy_from_slice(content.as_bytes());
    buffer
}

fn open_session() -> NVML {
    NVML::new(&succeeded(Payload::Nothing)).unwrap()
}

fn unit(session: &NVML) -> Unit<'_> {
    session.unit_handle_by_index(&succeeded(Payload::Handle(500))).unwrap()
}

#[test]
fn unit_is_resolved_on_success() {
    let session = open_session();
    assert_eq!(unit(&session).handle, 500);
    assert_eq!(Unit::new(&session, &succeeded(Payload::Handle(3))).unwrap().handle, 3);
}

#[test]
fn unit_is_not_resolved_on_failure() {
    let session = open_session();
    let error = session.unit_handle_by_index(&failed(2, "Invalid Argument")).unwrap_err();
    assert_eq!(error.kind(), ErrorKind::DriverError);
    assert_eq!(error.message().map(|m| m.as_str()), Some("Invalid Argument"));
    let reply = Reply::new(Status::new(3, "Not Supported"), Payload::Handle(500));
    let error = Unit::new(&session, &reply).unwrap_err();
    assert_eq!(error.kind(), ErrorKind::DriverError);
    assert_eq!(error.message().map(|m| m.as_str()), Some("Not Supported"));
    let error = Unit::new(&session, &succeeded(Payload::Nothing)).unwrap_err();
    assert_eq!(error.kind(), ErrorKind::LocalError);
    assert_eq!(error.message().map(|m| m.as_str()), Some(UNEXPECTED));
}

#[test]
fn unit_info_decodes_its_four_fields() {
    let session = open_session();
    let reply = succeeded(Payload::UnitInfo {
        name: field("S1070", 96),
        id: field("920-20804", 96),
        serial: field("0324208000123", 96),
        firmware_version: field("3.6", 96),
    });
    assert_eq!(
        unit(&session).info(&reply),
        Ok(UnitInfo {
            name: String::from("S1070"),
            id: String::from("920-20804"),
            serial: String::from("0324208000123"),
            firmware_version: String::from("3.6"),
        })
    );
}

#[test]
fn unit_info_reads_each_field_within_ninety_six_bytes() {
    let session = open_session();
    let reply = succeeded(Payload::UnitInfo {
        name: vec![b'n'; 120],
        id: vec![b'i'; 96],
        serial: vec![b's'; 10],
        firmware_version: vec![],
    });
    let info = unit(&session).info(&reply).unwrap();
    assert_eq!(info.name, "n".repeat(96));
    assert_eq!(info.id, "i".repeat(96));
    assert_eq!(info.serial, "s".repeat(10));
    assert_eq!(info.firmware_version, "");
}

#[test]
fn unit_info_fails_on_status_shape_and_ill_formed_text() {
    let session = open_session();
    let unit = unit(&session);
    assert_eq!(
        unit.info(&failed(3, "Not Supported")).unwrap_err().kind(),
        ErrorKind::NotSupported
    );
    assert_eq!(
        unit.info(&succeeded(Payload::Unsigned(1))).unwrap_err().kind(),
        ErrorKind::LocalError
    );
    let reply = succeeded(Payload::UnitInfo {
        name: field("ok", 96),
        id: vec![0xff, 0],
        serial: field("ok", 96),
        firmware_version: field("ok", 96),
    });
    assert_eq!(unit.info(&reply).unwrap_err().kind(), ErrorKind::LocalError);
}

#[test]
fn led_state_is_cause_and_colour() {
    let session = open_session();
    let unit = unit(&session);
    let reply = succeeded(Payload::Led { cause: field("fan failure", 256), color: 1 });
    assert_eq!(
        unit.led_state(&reply),
        Ok(LedState { cause: String::from("fan failure"), color: 1 })
    );
    let green = succeeded(Payload::Led { cause: zeroed(256), color: 0 });
    assert_eq!(unit.led_state(&green), Ok(LedState { cause: String::new(), color: 0 }));
    assert!(unit.led_state(&failed(1, "Uninitialized")).is_err());
    assert_eq!(
        unit.led_state(&succeeded(Payload::Nothing)).unwrap_err().kind(),
        ErrorKind::LocalError
    );
}

#[test]
fn psu_info_is_state_and_three_numbers() {
    let session = open_session();
    let unit = unit(&session);
    let reply = succeeded(Payload::Psu {
        state: field("Normal", 256),
        current: 12,
        voltage: 48,
        power: 576,
    });
    assert_eq!(
        unit.psu_info(&reply),
        Ok(PsuInfo { state: String::from("Normal"), current: 12, voltage: 48, power: 576 })
    );
    assert_eq!(
        unit.psu_info(&failed(3, "Not Supported")).unwrap_err().kind(),
        ErrorKind::NotSupported
    );
    assert_eq!(
        unit.psu_info(&succeeded(Payload::Unsigned(1))).unwrap_err().kind(),
        ErrorKind::LocalError
    );
}

#[test]
fn unit_temperature_is_the_number_in_the_reply() {
    let session = open_session();
    let unit = unit(&session);
    assert_eq!(unit.temperature(&succeeded(Payload::Unsigned(35))), Ok(35));
    assert_eq!(
        unit.temperature(&failed(3, "Not Supported")).unwrap_err().kind(),
        ErrorKind::NotSupported
    );
    assert_eq!(
        unit.temperature(&failed(2, "Invalid Argument")).unwrap_err().kind(),
        ErrorKind::DriverError
    );
}

#[test]
fn fans_are_the_counted_start_of_the_array() {
    let session = open_session();
    let unit = unit(&session);
    let mut fans = vec![Fan { speed: 0, state: 0 }; 24];
    fans[0] = Fan { speed: 40, state: 0 };
    fans[1] = Fan { speed: 0, state: 1 };
    fans[2] = Fan { speed: 99, state: 0 };
    let reply = succeeded(Payload::Fans { fans: fans.clone(), count: 2 });
    assert_eq!(
        unit.fan_speed(&reply),
        Ok(vec![Fan { speed: 40, state: 0 }, Fan { speed: 0, state: 1 }])
    );
    let none = succeeded(Payload::Fans { fans: fans.clone(), count: 0 });
    assert_eq!(unit.fan_speed(&none), Ok(vec![]));
    let all = succeeded(Payload::Fans { fans: fans.clone(), count: 24 });
    assert_eq!(unit.fan_speed(&all), Ok(fans));
}

#[test]
fn fans_counted_beyond_the_array_are_a_local_error() {
    let session = open_session();
    let unit = unit(&session);
    let short = succeeded(Payload::Fans { fans: vec![Fan { speed: 1, state: 0 }; 3], count: 4 });
    let error = unit.fan_speed(&short).unwrap_err();
    assert_eq!(error.kind(), ErrorKind::LocalError);
    assert_eq!(error.message().map(|m| m.as_str()), Some(OVERLONG));

    let long = succeeded(Payload::Fans { fans: vec![Fan { speed: 1, state: 0 }; 30], count: 25 });
    assert_eq!(unit.fan_speed(&long).unwrap_err().kind(), ErrorKind::LocalError);
    assert!(unit.fan_speed(&failed(1, "Uninitialized")).is_err());
    assert_eq!(
        unit.fan_speed(&succeeded(Payload::Nothing)).unwrap_err().kind(),
        ErrorKind::LocalError
    );
}

#[test]
fn unit_devices_are_the_counted_start_of_the_array() {
    let session = open_session();
    let unit = unit(&session);
    let reply = succeeded(Payload::Devices { handles: vec![11, 22, 33, 0], count: 3 });
    let devices = unit.devices(&reply).unwrap();
    let handles: Vec<usize> = devices.iter().map(|device| device.dev).collect();
    assert_eq!(handles, vec![11, 22, 33]);

    let empty = succeeded(Payload::Devices { handles: vec![], count: 0 });
    assert_eq!(unit.devices(&empty).unwrap().len(), 0);
}

#[test]
fn unit_devices_counted_beyond_the_array_are_a_local_error() {
    let session = open_session();
    let unit = unit(&session);
    let reply = succeeded(Payload::Devices { handles: vec![11, 22], count: 3 });
    let error = unit.devices(&reply).unwrap_err();
    assert_eq!(error.kind(), ErrorKind::LocalError);
    assert_eq!(error.message().map(|m| m.as_str()), Some(OVERLONG));
    assert_eq!(
        unit.devices(&failed(7, "Insufficient Size")).unwrap_err().kind(),
        ErrorKind::DriverError
    );
    assert_eq!(
        unit.devices(&succeeded(Payload::Handle(1))).unwrap_err().kind(),
        ErrorKind::LocalError
    );
}

#[test]
fn unit_devices_answer_as_device_handles() {
    let session = open_session();
    let unit = unit(&session);
    let reply = succeeded(Payload::Devices { handles: vec![11], count: 1 });
    let devices = unit.devices(&reply).unwrap();
    assert_eq!(
        devices[0].get_temperature(&succeeded(Payload::Unsigned(50))),
        Ok(50)
    );
}

#[test]
fn unit_lookup_fails_as_a_driver_error_whatever_the_code() {
    let session = open_session();
    for code in [1u32, 2, 3, 6, 12, 15, 999, u32::MAX] {
        let text = format!("status {}", code);
        let by_session = session.unit_handle_by_index(&failed(code, &text)).unwrap_err();
        assert_eq!(by_session.kind(), ErrorKind::DriverError, "code {}", code);
        assert_eq!(by_session.message().map(|m| m.as_str()), Some(text.as_str()));
        let direct = Unit::new(&session, &failed(code, &text)).unwrap_err();
        assert_eq!(direct.kind(), ErrorKind::DriverError, "code {}", code);
        assert_eq!(direct.message().map(|m| m.as_str()), Some(text.as_str()));
    }
}

#[test]
fn unit_devices_are_asked_for_with_room_for_every_device() {
    let session = open_session();
    let unit = unit(&session);
    assert_eq!(
        unit.devices_query(&succeeded(Payload::Unsigned(8))),
        Ok(Query::Unit(500, UnitAttribute::Devices(8)))
    );
    assert_eq!(
        unit.devices_query(&succeeded(Payload::Unsigned(0))),
        Ok(Query::Unit(500, UnitAttribute::Devices(0)))
    );
}

#[test]
fn unit_devices_are_not_asked_for_without_a_count() {
    let session = open_session();
    let unit = unit(&session);
    let error = unit.devices_query(&failed(1, "Uninitialized")).unwrap_err();
    assert_eq!(error.kind(), ErrorKind::DriverError);
    assert_eq!(error.message().map(|m| m.as_str()), Some("Uninitialized"));
    assert_eq!(
        unit.devices_query(&failed(3, "Not Supported")).unwrap_err().kind(),
        ErrorKind::NotSupported
    );
    let error = unit.devices_query(&succeeded(Payload::Signed(8))).unwrap_err();
    assert_eq!(error.kind(), ErrorKind::LocalError);
    assert_eq!(error.message().map(|m| m.as_str()), Some(UNEXPECTED));
}

#[test]
fn unit_accessors_report_a_missing_library_as_a_driver_error() {
    let session = open_session();
    let unit = unit(&session);
    let reply = failed(12, "NVML Shared Library Not Found");
    let errors = vec![
        unit.info(&reply).unwrap_err(),
        unit.led_state(&reply).unwrap_err(),
        unit.psu_info(&reply).unwrap_err(),
        unit.temperature(&reply).unwrap_err(),
        unit.fan_speed(&reply).unwrap_err(),
        unit.devices(&reply).unwrap_err(),
        unit.devices_query(&reply).unwrap_err(),
    ];
    for error in errors {
        assert_eq!(error.kind(), ErrorKind::DriverError);
        assert_eq!(
            error.message().map(|m| m.as_str()),
            Some("NVML Shared Library Not Found")
        );
    }
}
