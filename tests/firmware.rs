use hub_link::firmware::{
    check_download_status, fwup_args, progress_percent, FirmwareError, UpdateInfo,
};
use hub_link::json::Json;

fn text(s: &str) -> Json {
    Json::Str(s.to_string())
}

fn object(entries: Vec<(&str, Json)>) -> Json {
    Json::Object(entries.into_iter().map(|(k, v)| (k.to_string(), v)).collect())
}

#[test]
fn parse_update_info() {
    let payload = object(vec![
        ("firmware_url", text("https://s3.example.com/fw.fw?token=abc")),
        (
            "firmware_meta",
            object(vec![
                ("uuid", text("abc-123")),
                ("version", text("1.1.0")),
                ("platform", text("rpi4")),
                ("architecture", text("arm")),
                ("product", text("my-product")),
            ]),
        ),
    ]);
    let info = UpdateInfo::from_payload(&payload).unwrap();
    assert_eq!(info.firmware_url, "https://s3.example.com/fw.fw?token=abc");
    assert_eq!(info.firmware_meta.uuid, "abc-123");
    assert_eq!(info.firmware_meta.version, "1.1.0");
    assert_eq!(info.firmware_meta.platform, "rpi4");
}

#[test]
fn parse_invalid_update() {
    let payload = object(vec![("missing", text("fields"))]);
    assert!(UpdateInfo::from_payload(&payload).is_err());
}

#[test]
fn progress_calculation() {
    assert_eq!(progress_percent(0, Some(100)), 0);
    assert_eq!(progress_percent(50, Some(100)), 50);
    assert_eq!(progress_percent(100, Some(100)), 100);
    assert_eq!(progress_percent(200, Some(100)), 100);
    assert_eq!(progress_percent(50, None), 0);
    assert_eq!(progress_percent(50, Some(0)), 0);
}

#[test]
fn progress_rounds_down_and_does_not_overflow() {
    assert_eq!(progress_percent(1, Some(3)), 33);
    assert_eq!(progress_percent(2, Some(3)), 66);
    assert_eq!(progress_percent(u64::MAX, Some(u64::MAX)), 100);
    assert_eq!(progress_percent(u64::MAX / 2, Some(u64::MAX)), 49);
}

#[test]
fn update_missing_meta_field_is_invalid() {
    let payload = object(vec![
        ("firmware_url", text("u")),
        (
            "firmware_meta",
            object(vec![
                ("uuid", text("a")),
                ("version", text("v")),
                ("platform", text("p")),
                ("architecture", text("a")),
            ]),
        ),
    ]);
    assert!(matches!(UpdateInfo::from_payload(&payload), Err(FirmwareError::InvalidMessage(_))));
    let not_text = object(vec![("firmware_url", Json::Number("1".to_string()))]);
    assert!(matches!(UpdateInfo::from_payload(&not_text), Err(FirmwareError::InvalidMessage(_))));
}

#[test]
fn installer_arguments() {
    let args = fwup_args("/dev/mmcblk0", "/tmp/hub_link/firmware.fw", "upgrade");
    assert_eq!(
        args,
        vec!["-a", "-d", "/dev/mmcblk0", "-i", "/tmp/hub_link/firmware.fw", "-t", "upgrade"]
    );
}

#[test]
fn download_status() {
    assert!(check_download_status(200).is_ok());
    assert!(check_download_status(299).is_ok());
    assert_eq!(check_download_status(404), Err(FirmwareError::Download("HTTP 404".to_string())));
    assert!(check_download_status(199).is_err());
    assert!(check_download_status(300).is_err());
}
