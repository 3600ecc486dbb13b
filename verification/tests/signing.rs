use mass_rs::credentials::Credentials;
use mass_rs::oauth::{sign_at, sign_now, Timestamp};
use mass_rs::MaasClient;

const URL: &str = "http://localhost/api/2.0/machines/";

fn at(seconds: u64) -> Timestamp {
    Timestamp::new(seconds).unwrap()
}

#[test]
fn signature_is_pinned_for_fixed_nonce_and_timestamp() {
    let client = MaasClient::new("http://localhost", "cons:tok:sec", "2.0").unwrap();
    let header = client.generate_auth_header_at("GET", URL, "abc123", at(1700000000));
    assert!(header.contains("oauth_consumer_key=\"cons\""));
    assert!(header.contains("oauth_token=\"tok\""));
    assert!(header.contains("oauth_signature_method=\"HMAC-SHA1\""));
    assert!(header.contains("oauth_signature=\"hWP3%2Fhl%2BBJ%2FHnpAEw5Hwmvsa%2B5I%3D\""));
    assert_eq!(
        header,
        "OAuth oauth_consumer_key=\"cons\",oauth_nonce=\"abc123\",\
         oauth_signature_method=\"HMAC-SHA1\",oauth_timestamp=\"1700000000\",\
         oauth_token=\"tok\",oauth_version=\"1.0\",\
         oauth_signature=\"hWP3%2Fhl%2BBJ%2FHnpAEw5Hwmvsa%2B5I%3D\""
    );
}

#[test]
fn signing_twice_gives_identical_headers() {
    let client = MaasClient::new("http://localhost", "cons:tok:sec", "2.0").unwrap();
    let first = client.generate_auth_header_at("GET", URL, "abc123", at(1700000000));
    let second = client.generate_auth_header_at("GET", URL, "abc123", at(1700000000));
    assert_eq!(first, second);
}

#[test]
fn every_input_takes_part_in_the_signature() {
    let credentials = Credentials::parse("cons:tok:sec").unwrap();
    let reference = sign_at(&credentials, "GET", URL, "abc123", at(1700000000));
    assert_ne!(reference, sign_at(&credentials, "PUT", URL, "abc123", at(1700000000)));
    assert_ne!(reference, sign_at(&credentials, "GET", "http://localhost/api/2.0/", "abc123", at(1700000000)));
    assert_ne!(reference, sign_at(&credentials, "GET", URL, "abc124", at(1700000000)));
    assert_ne!(reference, sign_at(&credentials, "GET", URL, "abc123", at(1700000001)));
    for key in ["cont:tok:sec", "cons:tik:sec", "cons:tok:sic"] {
        let other = Credentials::parse(key).unwrap();
        assert_ne!(reference, sign_at(&other, "GET", URL, "abc123", at(1700000000)));
    }
}

#[test]
fn secret_is_percent_encoded_in_the_signing_key() {
    let credentials = Credentials::parse("cons:tok:s!*'() c").unwrap();
    let header = sign_at(&credentials, "GET", URL, "abc123", at(1700000000));
    assert!(header.ends_with("oauth_signature=\"Ujdh4MZmgz%2BInYmImh0wxJ%2Fm5ms%3D\""));
}

#[test]
fn reserved_characters_are_percent_encoded_in_header_and_base_string() {
    let credentials = Credentials::parse("c!*'() k:t k:sec").unwrap();
    let header = sign_at(&credentials, "POST", URL, "n+1", at(1700000000));
    assert_eq!(
        header,
        "OAuth oauth_consumer_key=\"c%21%2A%27%28%29%20k\",oauth_nonce=\"n%2B1\",\
         oauth_signature_method=\"HMAC-SHA1\",oauth_timestamp=\"1700000000\",\
         oauth_token=\"t%20k\",oauth_version=\"1.0\",\
         oauth_signature=\"SrWBNRrTkEjBah0TtbZMPCnE%2BZo%3D\""
    );
}

#[test]
fn query_and_fragment_stay_out_of_the_signature() {
    let credentials = Credentials::parse("cons:tok:sec").unwrap();
    let reference = sign_at(&credentials, "GET", URL, "abc123", at(1700000000));
    let with_query = sign_at(&credentials, "GET", "http://localhost/api/2.0/machines/?op=list", "abc123", at(1700000000));
    let with_fragment = sign_at(&credentials, "GET", "http://localhost/api/2.0/machines/#top", "abc123", at(1700000000));
    assert_eq!(reference, with_query);
    assert_eq!(reference, with_fragment);
}

#[test]
fn fresh_header_names_key_token_and_method() {
    let credentials = Credentials::parse("cons:tok:sec").unwrap();
    let header = sign_now(&credentials, "GET", "http://localhost/api/2.0/machines/?op=list");
    assert!(header.starts_with("OAuth oauth_consumer_key=\"cons\",oauth_nonce=\""));
    assert!(header.contains("oauth_signature_method=\"HMAC-SHA1\""));
    assert!(header.contains("oauth_token=\"tok\""));
    assert!(header.contains("oauth_version=\"1.0\""));
    assert!(header.contains("oauth_signature=\""));
}

#[test]
fn fresh_header_is_the_one_its_nonce_and_timestamp_give() {
    let credentials = Credentials::parse("cons:tok:sec").unwrap();
    let header = sign_now(&credentials, "GET", URL);
    let nonce = header.split("oauth_nonce=\"").nth(1).unwrap().split('"').next().unwrap();
    let stamp = header.split("oauth_timestamp=\"").nth(1).unwrap().split('"').next().unwrap();
    let timestamp: u64 = stamp.parse().unwrap();
    assert_eq!(header, sign_at(&credentials, "GET", URL, nonce, at(timestamp)));
}

#[test]
fn timestamp_is_any_positive_number_of_seconds() {
    assert!(Timestamp::new(0).is_none());
    assert_eq!(Timestamp::new(1).unwrap().seconds(), 1);
    assert_eq!(Timestamp::new(u64::MAX).unwrap().seconds(), u64::MAX);
    let credentials = Credentials::parse("cons:tok:sec").unwrap();
    let header = sign_at(&credentials, "GET", URL, "abc123", at(1));
    assert!(header.contains("oauth_timestamp=\"1\","));
}
