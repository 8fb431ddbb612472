use voice_core::naming::{
    file_name_from_stamp, get_save_path, recording_file_name, LocalTime, SavePath,
};

fn at(year: i32, month: u32, day: u32, hour: u32, minute: u32, second: u32) -> LocalTime {
    LocalTime { year, month, day, hour, minute, second }
}

#[test]
fn file_is_named_after_the_second_it_began() {
    assert_eq!(
        recording_file_name(&at(2024, 3, 5, 14, 7, 9)),
        Some("20240305_140709.wav".to_string())
    );
    assert_eq!(
        recording_file_name(&at(1999, 12, 31, 23, 59, 59)),
        Some("19991231_235959.wav".to_string())
    );
    assert_eq!(
        recording_file_name(&at(2024, 2, 29, 0, 0, 0)),
        Some("20240229_000000.wav".to_string())
    );
}

#[test]
fn early_years_are_padded_to_four_digits() {
    assert_eq!(recording_file_name(&at(7, 1, 1, 1, 1, 1)), Some("00070101_010101.wav".to_string()));
}

#[test]
fn captures_a_second_apart_get_different_files() {
    let first = recording_file_name(&at(2024, 3, 5, 14, 7, 9));
    let second = recording_file_name(&at(2024, 3, 5, 14, 7, 10));
    assert_ne!(first, second);
}

#[test]
fn a_time_that_does_not_exist_has_no_file_name() {
    assert_eq!(recording_file_name(&at(2023, 2, 29, 12, 0, 0)), None);
    assert_eq!(recording_file_name(&at(2024, 4, 31, 12, 0, 0)), None);
    assert_eq!(recording_file_name(&at(2024, 13, 1, 12, 0, 0)), None);
    assert_eq!(recording_file_name(&at(2024, 0, 1, 12, 0, 0)), None);
    assert_eq!(recording_file_name(&at(2024, 1, 0, 12, 0, 0)), None);
    assert_eq!(recording_file_name(&at(2024, 1, 1, 24, 0, 0)), None);
    assert_eq!(recording_file_name(&at(2024, 1, 1, 0, 60, 0)), None);
    assert_eq!(recording_file_name(&at(2024, 1, 1, 0, 0, 60)), None);
}

#[test]
fn file_name_is_stamp_and_extension() {
    assert_eq!(file_name_from_stamp(Some("x".to_string())), Some("x.wav".to_string()));
    assert_eq!(file_name_from_stamp(Some(String::new())), Some(".wav".to_string()));
    assert_eq!(file_name_from_stamp(None), None);
}

#[test]
fn recordings_have_a_directory_of_their_own() {
    assert_eq!(
        get_save_path(&at(2024, 3, 5, 14, 7, 9)),
        Some(SavePath {
            directory: "recordings".to_string(),
            file_name: "20240305_140709.wav".to_string(),
        })
    );
    assert_eq!(get_save_path(&at(2024, 2, 30, 0, 0, 0)), None);
}

#[test]
fn every_calendar_time_has_a_file_name() {
    let days: [(i32, u32, u32); 8] = [
        (0, 1, 1),
        (1900, 2, 28),
        (2000, 2, 29),
        (2024, 2, 29),
        (2024, 3, 5),
        (2024, 4, 30),
        (2024, 12, 31),
        (9999, 12, 31),
    ];
    for (year, month, day) in days {
        for (hour, minute, second) in [(0, 0, 0), (7, 8, 9), (23, 59, 59)] {
            let name = recording_file_name(&at(year, month, day, hour, minute, second));
            assert_eq!(
                name,
                Some(format!(
                    "{:04}{:02}{:02}_{:02}{:02}{:02}.wav",
                    year, month, day, hour, minute, second
                ))
            );
        }
    }
    assert_eq!(recording_file_name(&at(1900, 2, 29, 0, 0, 0)), None);
    assert_eq!(recording_file_name(&at(2100, 2, 29, 0, 0, 0)), None);
}

#[test]
fn a_place_comes_back_for_a_morning_in_march() {
    assert_eq!(
        get_save_path(&at(2024, 3, 5, 7, 8, 9)),
        Some(SavePath {
            directory: "recordings".to_string(),
            file_name: "20240305_070809.wav".to_string(),
        })
    );
}

#[test]
fn file_name_agrees_with_the_formatter_on_the_same_time() {
    let stamp = chrono::NaiveDate::from_ymd_opt(2031, 11, 2)
        .unwrap()
        .and_hms_opt(3, 4, 5)
        .unwrap();
    let expected = format!("{}.wav", stamp.format("%Y%m%d_%H%M%S"));
    assert_eq!(recording_file_name(&at(2031, 11, 2, 3, 4, 5)), Some(expected));
}
