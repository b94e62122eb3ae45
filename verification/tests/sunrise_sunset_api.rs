use sunclock::sunrise_sunset_api::DaylightCollection;
use sunclock::sunrise_sunset_api::DaylightResponse;
use sunclock::sunrise_sunset_api::FetchError;
use sunclock::sunrise_sunset_api::Status;

fn collection(status: Status) -> DaylightCollection {
    DaylightCollection {
        results: DaylightResponse { sunrise: 100, sunset: 200, day_length: 100 },
        status,
    }
}

#[test]
fn missing_status_reads_as_unknown_error() {
    assert_eq!(Status::unknown_error(), Status::UnknownError);
}

#[test]
fn successful_reply_yields_its_boundary() {
    let reply = collection(Status::Okay);
    assert_eq!(reply.into_result(), Ok(reply.results));
}

#[test]
fn each_failure_status_maps_to_its_error() {
    assert_eq!(
        collection(Status::InvalidRequest).into_result(),
        Err(FetchError::InvalidRequest)
    );
    assert_eq!(
        collection(Status::InvalidDate).into_result(),
        Err(FetchError::InvalidDate)
    );
    assert_eq!(
        collection(Status::UnknownError).into_result(),
        Err(FetchError::UnknownError)
    );
}

#[test]
fn fetch_errors_describe_themselves() {
    assert_eq!(FetchError::InvalidRequest.message(), "Invalid Request");
    assert_eq!(FetchError::InvalidDate.message(), "Invalid Date");
    assert_eq!(FetchError::UnknownError.message(), "Unknown Error");
}
