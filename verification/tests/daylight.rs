use sunclock::daylight::resolve_fetch;
use sunclock::daylight::DateLabel;
use sunclock::daylight::Daylight;
use sunclock::daylight::UpdateOutcome;
use sunclock::sunrise_sunset_api::DaylightResponse;
use sunclock::sunrise_sunset_api::FetchError;

const NOW: i64 = 1_700_000_000;

fn boundary(sunrise: i64, sunset: i64) -> DaylightResponse {
    DaylightResponse { sunrise, sunset, day_length: (sunset - sunrise) as usize }
}

#[test]
fn unknown_is_due_at_once_with_one_second_backoff() {
    let state = Daylight::unknown(None, NOW);
    assert_eq!(
        state,
        Daylight::Unknown { date: None, try_again: NOW, backoff_seconds: 1 }
    );
    assert_eq!(
        state.update(NOW),
        UpdateOutcome::FetchDue { date: None, backoff_seconds: 1 }
    );
}

#[test]
fn update_keeps_a_countdown_whose_boundary_lies_ahead() {
    let response = boundary(NOW + 600, NOW + 4000);
    let sunrise = Daylight::Sunrise { response };
    assert_eq!(sunrise.update(NOW), UpdateOutcome::Settled(sunrise));
    let sunset = Daylight::Sunset { response };
    assert_eq!(sunset.update(NOW), UpdateOutcome::Settled(sunset));
    let waiting = Daylight::Unknown { date: None, try_again: NOW + 5, backoff_seconds: 4 };
    assert_eq!(waiting.update(NOW), UpdateOutcome::Settled(waiting));
}

#[test]
fn sunrise_at_its_boundary_never_stays_sunrise() {
    let response = boundary(NOW, NOW + 4000);
    let outcome = Daylight::Sunrise { response }.update(NOW);
    assert!(!matches!(
        outcome,
        UpdateOutcome::Settled(Daylight::Sunrise { .. })
    ));
    assert_eq!(outcome, UpdateOutcome::Settled(Daylight::Sunset { response }));
}

#[test]
fn sunrise_with_both_boundaries_passed_rolls_to_a_fetch() {
    let response = boundary(NOW - 4000, NOW - 100);
    assert_eq!(
        Daylight::Sunrise { response }.update(NOW),
        UpdateOutcome::FetchDue { date: Some(DateLabel::Tomorrow), backoff_seconds: 1 }
    );
}

#[test]
fn sunset_at_its_boundary_asks_for_an_immediate_fetch() {
    let response = boundary(NOW - 40000, NOW);
    assert_eq!(
        Daylight::Sunset { response }.update(NOW),
        UpdateOutcome::FetchDue { date: Some(DateLabel::Tomorrow), backoff_seconds: 1 }
    );
}

#[test]
fn backoff_doubles_from_one_second_and_caps_at_twelve_hours() {
    let mut backoff: usize = 1;
    let mut seen = vec![backoff];
    for _ in 0..20 {
        let outcome = resolve_fetch(NOW, None, backoff, Err(FetchError::UnknownError));
        match outcome {
            UpdateOutcome::Settled(Daylight::Unknown { date, try_again, backoff_seconds }) => {
                assert_eq!(date, None);
                assert_eq!(try_again, NOW + backoff_seconds as i64);
                backoff = backoff_seconds;
            }
            other => panic!("a failed fetch must stay Unknown, got {other:?}"),
        }
        seen.push(backoff);
    }
    assert_eq!(
        seen,
        vec![
            1, 2, 4, 8, 16, 32, 64, 128, 256, 512, 1024, 2048, 4096, 8192, 16384, 32768, 43200,
            43200, 43200, 43200, 43200
        ]
    );
}

#[test]
fn failed_fetch_keeps_the_requested_date() {
    let outcome = resolve_fetch(
        NOW,
        Some(DateLabel::Tomorrow),
        6,
        Err(FetchError::InvalidDate),
    );
    assert_eq!(
        outcome,
        UpdateOutcome::Settled(Daylight::Unknown {
            date: Some(DateLabel::Tomorrow),
            try_again: NOW + 12,
            backoff_seconds: 12,
        })
    );
}

#[test]
fn immediate_fetch_success_counts_down_two_hours() {
    let state = Daylight::unknown(None, NOW);
    let outcome = state.update(NOW);
    assert_eq!(outcome, UpdateOutcome::FetchDue { date: None, backoff_seconds: 1 });
    let response = boundary(NOW + 2 * 3600, NOW + 10 * 3600);
    let resolved = resolve_fetch(NOW, None, 1, Ok(response));
    let settled = Daylight::Sunrise { response };
    assert_eq!(resolved, UpdateOutcome::Settled(settled));
    assert_eq!(settled.until(NOW), (2, 0));
}

#[test]
fn successful_fetch_with_passed_sunrise_rolls_onward_in_the_same_tick() {
    let response = boundary(NOW - 100, NOW + 3600);
    assert_eq!(
        resolve_fetch(NOW, None, 1, Ok(response)),
        UpdateOutcome::Settled(Daylight::Sunset { response })
    );
}

#[test]
fn until_splits_hours_and_minutes() {
    let response = boundary(NOW + 3661, NOW + 7322);
    assert_eq!(Daylight::Sunrise { response }.until(NOW), (1, 1));
    assert_eq!(Daylight::Sunset { response }.until(NOW), (2, 2));
    assert_eq!(Daylight::Sunrise { response }.until(NOW + 3661), (0, 0));
}

#[test]
fn until_takes_hours_modulo_a_day() {
    // 25 hours ahead reads as one hour on the clock face.
    let response = boundary(NOW + 25 * 3600, NOW + 26 * 3600);
    assert_eq!(Daylight::Sunrise { response }.until(NOW), (1, 0));
}

#[test]
fn until_is_zero_while_the_boundary_is_unknown() {
    let state = Daylight::Unknown { date: None, try_again: NOW + 64, backoff_seconds: 64 };
    assert_eq!(state.until(NOW), (0, 0));
}
