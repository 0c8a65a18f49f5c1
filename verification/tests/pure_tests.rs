use gate_opener::pure::{
    median, obstacle_blocked, sensor_status, status_str, STATUS_CLOSED, STATUS_CLOSING,
    STATUS_ERROR, STATUS_OPEN, STATUS_OPENING, STATUS_STOPPED, ST_CLOSED, ST_CLOSING, ST_ERROR,
    ST_OPEN, ST_OPENING, ST_STOPPED,
};

#[test]
fn sensor_status_mapping() {
    assert_eq!(sensor_status(true, false), ST_OPEN);
    assert_eq!(sensor_status(false, true), ST_CLOSED);
    assert_eq!(sensor_status(false, false), ST_STOPPED);
    assert_eq!(sensor_status(true, true), ST_ERROR);
}

#[test]
fn status_strings_round_trip() {
    assert_eq!(status_str(ST_OPEN), STATUS_OPEN);
    assert_eq!(status_str(ST_CLOSED), STATUS_CLOSED);
    assert_eq!(status_str(ST_OPENING), STATUS_OPENING);
    assert_eq!(status_str(ST_CLOSING), STATUS_CLOSING);
    assert_eq!(status_str(ST_ERROR), STATUS_ERROR);
    assert_eq!(status_str(99), STATUS_STOPPED);
}

#[test]
fn obstacle_level_detection() {
    assert!(obstacle_blocked(true, true));
    assert!(!obstacle_blocked(false, true));
    assert!(obstacle_blocked(false, false));
    assert!(!obstacle_blocked(true, false));
}

#[test]
fn median_of_equal_and_empty_samples() {
    let samples = [2000u16; 8];
    assert_eq!(median(&samples), Some(2000));
    assert_eq!(median(&[]), None);
}

#[test]
fn median_takes_upper_middle_of_sorted_samples() {
    assert_eq!(median(&[5, 1, 4, 2, 3]), Some(3));
    assert_eq!(median(&[10, 40, 20, 30]), Some(30));
    assert_eq!(median(&[7]), Some(7));
    assert_eq!(median(&[9, 9, 1, 1, 9]), Some(9));
}

#[test]
fn status_names_are_the_documented_words() {
    assert_eq!(STATUS_OPEN, "open");
    assert_eq!(STATUS_CLOSED, "closed");
    assert_eq!(STATUS_OPENING, "opening");
    assert_eq!(STATUS_CLOSING, "closing");
    assert_eq!(STATUS_STOPPED, "stopped");
    assert_eq!(STATUS_ERROR, "error");
}
