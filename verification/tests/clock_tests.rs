use background_jobs::scheduled::ZonedDateTime;

#[test]
fn utc_local_timestamp_is_unshifted() {
    let stamp = ZonedDateTime { utc_seconds: 1_700_000_000, timezone: "UTC".to_string() };
    assert_eq!(stamp.local_timestamp(), Some(1_700_000_000));
}

#[test]
fn paris_in_november_is_one_hour_ahead() {
    // 2023-11-14, when Europe/Paris is on CET (UTC+1).
    let stamp = ZonedDateTime { utc_seconds: 1_700_000_000, timezone: "Europe/Paris".to_string() };
    assert_eq!(stamp.local_timestamp(), Some(1_700_003_600));
}

#[test]
fn kolkata_offset_is_five_and_a_half_hours() {
    let stamp = ZonedDateTime { utc_seconds: 1_700_000_000, timezone: "Asia/Kolkata".to_string() };
    assert_eq!(stamp.local_timestamp(), Some(1_700_019_800));
}

#[test]
fn unknown_zone_has_no_local_timestamp() {
    let stamp = ZonedDateTime { utc_seconds: 0, timezone: "Atlantis/Lost".to_string() };
    assert_eq!(stamp.local_timestamp(), None);
}
