use nvml_rs::error::{ErrorKind, Status};
use nvml_rs::query::{Attribute, DeviceSensorType, Query, TemperatureType, UnitAttribute};
use nvml_rs::reply::{Memory, Payload, Reply};
use nvml_rs::session::{quantity, NVML};
use nvml_rs::text::zeroed;

const UNEXPECTED: &str = "the reply does not hold what was asked for";
const NEGATIVE: &str = "the driver reported a negative number";

fn succeeded(payload: Payload) -> Reply {
    Reply::new(Status::new(0, "Success"), payload)
}

fn failed(code: u32, text: &str) -> Reply {
    Reply::new(Status::new(code, text), Payload::Nothing)
}

fn buffer_with(text: &str, capacity: usize) -> Vec<u8> {
    let mut buffer = zeroed(capacity);
    buffer[..text.len()].copy_from_slice(text.as_bytes());
    buffer
}

fn open_session() -> NVML {
    NVML::new(&succeeded(Payload::Nothing)).unwrap()
}

#[test]
fn session_opens_on_success() {
    assert!(NVML::new(&succeeded(Payload::Nothing)).is_ok());
}

#[test]
fn session_opens_twice_in_a_row() {
    let first = NVML::new(&succeeded(Payload::Nothing));
    drop(first);
    assert!(NVML::new(&succeeded(Payload::Nothing)).is_ok());
}

#[test]
fn session_open_fails_with_library_not_found() {
    let error = NVML::new(&failed(12, "NVML Shared Library Not Found")).unwrap_err();
    assert_eq!(error.kind(), ErrorKind::LibraryNotFound);
    assert_eq!(
        error.message().map(|m| m.as_str()),
        Some("NVML Shared Library Not Found")
    );
}

#[test]
fn session_open_fails_with_a_driver_error_on_any_other_code() {
    for code in [1u32, 2, 3, 4, 9, 18, 999] {
        let error = NVML::new(&failed(code, "Driver Not Loaded")).unwrap_err();
        assert_eq!(error.kind(), ErrorKind::DriverError, "code {}", code);
        assert_eq!(error.message().map(|m| m.as_str()), Some("Driver Not Loaded"));
    }
}

#[test]
fn device_count_is_the_number_in_the_reply() {
    let session = open_session();
    assert_eq!(session.device_count(&succeeded(Payload::Unsigned(2))), Ok(2));
    assert_eq!(session.device_count(&succeeded(Payload::Unsigned(0))), Ok(0));
}

#[test]
fn device_count_fails_with_the_status() {
    let session = open_session();
    let reply = Reply::new(Status::new(1, "Uninitialized"), Payload::Unsigned(5));
    let error = session.device_count(&reply).unwrap_err();
    assert_eq!(error.kind(), ErrorKind::DriverError);
    assert_eq!(error.message().map(|m| m.as_str()), Some("Uninitialized"));
}

#[test]
fn device_count_fails_locally_on_another_payload() {
    let session = open_session();
    let error = session.device_count(&succeeded(Payload::Signed(2))).unwrap_err();
    assert_eq!(error.kind(), ErrorKind::LocalError);
    assert_eq!(error.message().map(|m| m.as_str()), Some(UNEXPECTED));
}

#[test]
fn unit_count_is_the_number_in_the_reply() {
    let session = open_session();
    assert_eq!(session.unit_count(&succeeded(Payload::Unsigned(3))), Ok(3));
    assert_eq!(
        session.unit_count(&succeeded(Payload::Unsigned(u32::MAX))),
        Ok(4294967295)
    );
    let error = session.unit_count(&failed(3, "Not Supported")).unwrap_err();
    assert_eq!(error.kind(), ErrorKind::NotSupported);
}

#[test]
fn driver_version_is_the_text_before_the_terminator() {
    let session = open_session();
    let reply = succeeded(Payload::Text(buffer_with("535.104.05", 80)));
    assert_eq!(session.driver_version(&reply), Ok(String::from("535.104.05")));
}

#[test]
fn library_version_is_the_text_before_the_terminator() {
    let session = open_session();
    let reply = succeeded(Payload::Text(buffer_with("12.535.104.05", 80)));
    assert_eq!(session.version(&reply), Ok(String::from("12.535.104.05")));
}

#[test]
fn version_of_a_failed_call_is_not_read_from_the_buffer() {
    let session = open_session();
    let reply = Reply::new(
        Status::new(999, "Unknown Error"),
        Payload::Text(buffer_with("stale", 80)),
    );
    let error = session.driver_version(&reply).unwrap_err();
    assert_eq!(error.kind(), ErrorKind::DriverError);
    assert_eq!(error.message().map(|m| m.as_str()), Some("Unknown Error"));
    assert!(session.version(&reply).is_err());
}

#[test]
fn version_is_read_within_eighty_bytes() {
    let session = open_session();
    let long = vec![b'9'; 100];
    let reply = succeeded(Payload::Text(long));
    assert_eq!(session.driver_version(&reply), Ok("9".repeat(80)));
    assert_eq!(session.version(&reply), Ok("9".repeat(80)));
}

#[test]
fn cuda_version_is_the_number_in_the_reply() {
    let session = open_session();
    assert_eq!(session.cuda_version(&succeeded(Payload::Signed(12020))), Ok(12020));
    assert_eq!(session.cuda_version(&succeeded(Payload::Signed(0))), Ok(0));
    assert_eq!(
        session.cuda_version(&succeeded(Payload::Signed(i32::MAX))),
        Ok(2147483647)
    );
}

#[test]
fn cuda_version_below_zero_is_a_local_error() {
    let session = open_session();
    let error = session.cuda_version(&succeeded(Payload::Signed(-1))).unwrap_err();
    assert_eq!(error.kind(), ErrorKind::LocalError);
    assert_eq!(error.message().map(|m| m.as_str()), Some(NEGATIVE));
}

#[test]
fn cuda_version_fails_with_the_status_first() {
    let session = open_session();
    let reply = Reply::new(Status::new(13, "Function Not Found"), Payload::Unsigned(1));
    let error = session.cuda_version(&reply).unwrap_err();
    assert_eq!(error.kind(), ErrorKind::DriverError);
    assert_eq!(error.message().map(|m| m.as_str()), Some("Function Not Found"));
}

#[test]
fn quantity_keeps_what_is_not_negative() {
    assert_eq!(quantity(0), Ok(0));
    assert_eq!(quantity(8), Ok(8));
    assert_eq!(quantity(i32::MIN).unwrap_err().kind(), ErrorKind::LocalError);
}

#[test]
fn replies_are_read_by_their_shape() {
    let reply = succeeded(Payload::Handle(77));
    assert_eq!(reply.handle(), Ok(77));
    assert_eq!(reply.check(), Ok(()));
    assert_eq!(reply.unsigned().unwrap_err().kind(), ErrorKind::LocalError);
    assert_eq!(reply.signed().unwrap_err().kind(), ErrorKind::LocalError);
    assert_eq!(reply.pair().unwrap_err().kind(), ErrorKind::LocalError);
    assert_eq!(reply.memory().unwrap_err().kind(), ErrorKind::LocalError);
    assert_eq!(reply.text(8).unwrap_err().kind(), ErrorKind::LocalError);

    assert_eq!(succeeded(Payload::Pair(8, 6)).pair(), Ok((8, 6)));
    assert_eq!(succeeded(Payload::Signed(-4)).signed(), Ok(-4));
    let memory = Memory { total: 3, free: 2, used: 1 };
    assert_eq!(succeeded(Payload::Memory(memory)).memory(), Ok(memory));
    assert_eq!(
        succeeded(Payload::Text(vec![b'a', 0, b'b'])).text(3),
        Ok(String::from("a"))
    );
}

#[test]
fn a_failing_status_is_reported_whatever_the_payload() {
    let payloads = vec![
        Payload::Nothing,
        Payload::Handle(1),
        Payload::Unsigned(1),
        Payload::Signed(1),
        Payload::Pair(1, 1),
        Payload::Text(vec![b'x']),
        Payload::Memory(Memory { total: 1, free: 1, used: 1 }),
        Payload::File(Some(String::from("1"))),
    ];
    for payload in payloads {
        let reply = Reply::new(Status::new(3, "Not Supported"), payload);
        assert_eq!(reply.check().unwrap_err().kind(), ErrorKind::NotSupported);
        assert_eq!(reply.handle().unwrap_err().kind(), ErrorKind::DriverError);
        assert_eq!(
            reply.handle().unwrap_err().message().map(|m| m.as_str()),
            Some("Not Supported")
        );
        assert_eq!(reply.unsigned().unwrap_err().kind(), ErrorKind::NotSupported);
        assert_eq!(reply.signed().unwrap_err().kind(), ErrorKind::NotSupported);
        assert_eq!(reply.pair().unwrap_err().kind(), ErrorKind::NotSupported);
        assert_eq!(reply.memory().unwrap_err().kind(), ErrorKind::NotSupported);
        assert_eq!(reply.text(1).unwrap_err().kind(), ErrorKind::NotSupported);
    }
}

#[test]
fn buffers_are_sized_by_the_query() {
    assert_eq!(Query::DriverVersion.capacity(), 80);
    assert_eq!(Query::LibraryVersion.capacity(), 80);
    assert_eq!(Query::Device(1, Attribute::Name).capacity(), 64);
    assert_eq!(Query::Device(1, Attribute::Uuid).capacity(), 80);
    assert_eq!(Query::Device(1, Attribute::PciInfo).capacity(), 0);
    assert_eq!(Query::Device(1, Attribute::MinorNumber).capacity(), 0);
    assert_eq!(Query::Init.capacity(), 0);
    assert_eq!(Query::Shutdown.capacity(), 0);
    assert_eq!(Query::DeviceCount.capacity(), 0);
    assert_eq!(Query::DeviceHandle(0).capacity(), 0);
    assert_eq!(Query::Unit(1, UnitAttribute::Info).capacity(), 0);
    assert_eq!(Query::NumaNode(String::from("/p")).capacity(), 0);
}

#[test]
fn selectors_have_the_drivers_ordinals() {
    assert_eq!(u32::from(DeviceSensorType::GPU), 0);
    assert_eq!(u32::from(DeviceSensorType::COUNT), 1);
    assert_eq!(u64::from(TemperatureType::Intake), 0);
    assert_eq!(u64::from(TemperatureType::Exhaust), 1);
    assert_eq!(u64::from(TemperatureType::Board), 2);
}

#[test]
fn only_the_opening_of_a_session_reports_a_missing_library() {
    let missing = "NVML Shared Library Not Found";
    assert_eq!(
        NVML::new(&failed(12, missing)).unwrap_err().kind(),
        ErrorKind::LibraryNotFound
    );
    let session = open_session();
    let reply = failed(12, missing);
    let errors = vec![
        session.device_count(&reply).unwrap_err(),
        session.unit_count(&reply).unwrap_err(),
        session.driver_version(&reply).unwrap_err(),
        session.version(&reply).unwrap_err(),
        session.cuda_version(&reply).unwrap_err(),
        reply.check().unwrap_err(),
        reply.handle().unwrap_err(),
        reply.unsigned().unwrap_err(),
        reply.signed().unwrap_err(),
        reply.pair().unwrap_err(),
        reply.memory().unwrap_err(),
        reply.text(8).unwrap_err(),
    ];
    for error in errors {
        assert_eq!(error.kind(), ErrorKind::DriverError);
        assert_eq!(error.message().map(|m| m.as_str()), Some(missing));
    }
}
