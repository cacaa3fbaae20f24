use twitch_link::error::Error;

#[test]
fn each_failure_has_its_line() {
    assert_eq!(Error::Config.message(), "[ERR] credentials are missing or malformed");
    assert_eq!(Error::Network.message(), "[ERR] the service could not be reached");
    assert_eq!(Error::ResponseShape.message(), "[ERR] unexpected response");
}

#[test]
fn failures_are_told_apart() {
    assert_ne!(Error::Network, Error::ResponseShape);
    assert_ne!(Error::Config, Error::Network);
    assert_ne!(Error::Config, Error::ResponseShape);
}
