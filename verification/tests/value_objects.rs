use px6_client::value_object::BuildError;
use px6_client::value_object::Country;
use px6_client::value_object::Currency;
use px6_client::value_object::OrderId;
use px6_client::value_object::PageLimit;
use px6_client::value_object::Password;
use px6_client::value_object::Port;
use px6_client::value_object::ProxyDescription;
use px6_client::value_object::ProxyId;
use px6_client::value_object::ProxyPeriod;
use px6_client::value_object::ProxyString;
use px6_client::value_object::ResponseStatus;
use px6_client::value_object::UserBalance;
use px6_client::value_object::UserId;
use px6_client::value_object::Username;

// ===== ProxyPeriod tests =====

#[test]
fn test_proxy_period_new_valid() {
    let period = ProxyPeriod::new(100).unwrap();
    assert_eq!(period.as_usize(), 100);
}

#[test]
fn test_proxy_period_new_one() {
    let period = ProxyPeriod::new(1).unwrap();
    assert_eq!(period.as_usize(), 1);
}

#[test]
fn test_proxy_period_new_large_value() {
    let period = ProxyPeriod::new(999_999).unwrap();
    assert_eq!(period.as_usize(), 999_999);
}

#[test]
fn test_proxy_period_new_zero_error() {
    let result = ProxyPeriod::new(0);
    assert!(result.is_err());
    assert_eq!(result, Err(BuildError::ProxyPeriodTooLow));
}

// ===== Country tests =====

#[test]
fn test_country_new_valid_two_letter() {
    let country = Country::new("US").unwrap();
    assert_eq!(country.as_str(), "us");
}

#[test]
fn test_country_new_uppercase_converts_to_lowercase() {
    let country = Country::new("RU").unwrap();
    assert_eq!(country.as_str(), "ru");
}

#[test]
fn test_country_new_already_lowercase() {
    let country = Country::new("de").unwrap();
    assert_eq!(country.as_str(), "de");
}

#[test]
fn test_country_new_one_letter_error() {
    let result = Country::new("U");
    assert!(result.is_err());
    assert_eq!(result, Err(BuildError::CountryMustBeIso2));
}

#[test]
fn test_country_new_three_letter_error() {
    let result = Country::new("USA");
    assert!(result.is_err());
    assert_eq!(result, Err(BuildError::CountryMustBeIso2));
}

#[test]
fn test_country_new_empty_error() {
    let result = Country::new("");
    assert!(result.is_err());
    assert_eq!(result, Err(BuildError::CountryMustBeIso2));
}

// ===== PageLimit tests =====

#[test]
fn test_page_limit_new_valid() {
    let limit = PageLimit::new(100).unwrap();
    assert_eq!(limit.as_u16(), 100);
}

#[test]
fn test_page_limit_new_one() {
    let limit = PageLimit::new(1).unwrap();
    assert_eq!(limit.as_u16(), 1);
}

#[test]
fn test_page_limit_new_max() {
    let limit = PageLimit::new(1000).unwrap();
    assert_eq!(limit.as_u16(), 1000);
}

#[test]
fn test_page_limit_new_zero_error() {
    let result = PageLimit::new(0);
    assert!(result.is_err());
    assert_eq!(result, Err(BuildError::PageLimitTooLow));
}

#[test]
fn test_page_limit_new_too_high_error() {
    let result = PageLimit::new(1001);
    assert!(result.is_err());
    assert_eq!(result, Err(BuildError::PageLimitTooHigh));
}

// ===== ProxyDescription tests =====

#[test]
fn test_proxy_description_new_valid() {
    let desc = ProxyDescription::new("My proxy").unwrap();
    assert_eq!(desc.as_str(), "My proxy");
}

#[test]
fn test_proxy_description_new_empty() {
    let desc = ProxyDescription::new("").unwrap();
    assert_eq!(desc.as_str(), "");
}

#[test]
fn test_proxy_description_new_fifty_chars() {
    let desc = ProxyDescription::new(&"a".repeat(50)).unwrap();
    assert_eq!(desc.as_str(), "a".repeat(50).as_str());
    assert_eq!(desc.as_str().len(), 50);
}

#[test]
fn test_proxy_description_new_too_long_error() {
    let result = ProxyDescription::new(&"a".repeat(51));
    assert!(result.is_err());
    assert_eq!(result, Err(BuildError::ProxyDescriptionTooLong));
}

// ===== ProxyId tests =====

#[test]
fn test_proxy_id_new_string() {
    let id = ProxyId::new("test-id-123");
    assert_eq!(id.as_str(), "test-id-123");
}

#[test]
fn test_proxy_id_new_empty() {
    let id = ProxyId::new("");
    assert_eq!(id.as_str(), "");
}

// ===== ProxyString tests =====

#[test]
fn test_proxy_string_new_valid() {
    let proxy = ProxyString::new("192.168.1.1:8080:user:pass").unwrap();
    assert_eq!(proxy.as_str(), "192.168.1.1:8080:user:pass");
}

#[test]
fn test_proxy_string_new_valid_large_port() {
    let proxy = ProxyString::new("192.168.1.1:65535:user:pass").unwrap();
    assert_eq!(proxy.as_str(), "192.168.1.1:65535:user:pass");
}

#[test]
fn test_proxy_string_new_valid_port_zero() {
    let proxy = ProxyString::new("192.168.1.1:0:user:pass").unwrap();
    assert_eq!(proxy.as_str(), "192.168.1.1:0:user:pass");
}

#[test]
fn test_proxy_string_new_invalid_format_missing_parts() {
    let result = ProxyString::new("192.168.1.1:8080:user");
    assert!(result.is_err());
    assert_eq!(result, Err(BuildError::ProxyStringIncorrectFormat));
}

#[test]
fn test_proxy_string_new_invalid_format_too_many_parts() {
    let result = ProxyString::new("192.168.1.1:8080:user:pass:extra");
    assert!(result.is_err());
    assert_eq!(result, Err(BuildError::ProxyStringIncorrectFormat));
}

#[test]
fn test_proxy_string_new_invalid_ip() {
    let result = ProxyString::new("invalid:8080:user:pass");
    assert!(result.is_err());
    assert_eq!(result, Err(BuildError::ProxyStringIncorrectFormat));
}

#[test]
fn test_proxy_string_new_invalid_ip_format() {
    let result = ProxyString::new("192.168.1:8080:user:pass");
    assert!(result.is_err());
    assert_eq!(result, Err(BuildError::ProxyStringIncorrectFormat));
}

#[test]
fn test_proxy_string_new_invalid_port_not_number() {
    let result = ProxyString::new("192.168.1.1:abc:user:pass");
    assert!(result.is_err());
    assert_eq!(result, Err(BuildError::ProxyStringIncorrectFormat));
}

#[test]
fn test_proxy_string_new_invalid_port_too_high() {
    let result = ProxyString::new("192.168.1.1:65536:user:pass");
    assert!(result.is_err());
    assert_eq!(result, Err(BuildError::ProxyStringIncorrectFormat));
}

#[test]
fn test_proxy_string_new_empty_user() {
    let result = ProxyString::new("192.168.1.1:8080::pass");
    assert!(result.is_err());
    assert_eq!(result, Err(BuildError::ProxyStringIncorrectFormat));
}

#[test]
fn test_proxy_string_new_empty_pass() {
    let result = ProxyString::new("192.168.1.1:8080:user:");
    assert!(result.is_err());
    assert_eq!(result, Err(BuildError::ProxyStringIncorrectFormat));
}

#[test]
fn test_proxy_string_new_empty_user_and_pass() {
    let result = ProxyString::new("192.168.1.1:8080::");
    assert!(result.is_err());
    assert_eq!(result, Err(BuildError::ProxyStringIncorrectFormat));
}

// ===== Port tests =====

#[test]
fn test_port_new() {
    let port = Port::new(8080);
    assert_eq!(port.as_u16(), 8080);
}

#[test]
fn test_port_new_zero() {
    let port = Port::new(0);
    assert_eq!(port.as_u16(), 0);
}

#[test]
fn test_port_new_max() {
    let port = Port::new(65535);
    assert_eq!(port.as_u16(), 65535);
}

// ===== Username tests =====

#[test]
fn test_username_new() {
    let username = Username::new("testuser".to_string());
    assert_eq!(username.as_str(), "testuser");
}

#[test]
fn test_username_new_empty() {
    let username = Username::new(String::new());
    assert_eq!(username.as_str(), "");
}

// ===== Password tests =====

#[test]
fn test_password_new() {
    let password = Password::new("secret123".to_string());
    assert_eq!(password.as_str(), "secret123");
}

#[test]
fn test_password_new_empty() {
    let password = Password::new(String::new());
    assert_eq!(password.as_str(), "");
}

// ===== ResponseStatus tests =====

#[test]
fn test_response_status_new() {
    let status = ResponseStatus::new("success".to_string());
    assert_eq!(status.as_str(), "success");
}

// ===== UserId tests =====

#[test]
fn test_user_id_new() {
    let id = UserId::new("user123".to_string());
    assert_eq!(id.as_str(), "user123");
}

// ===== UserBalance tests =====

#[test]
fn test_user_balance_new() {
    let balance = UserBalance::new("100.50".to_string());
    assert_eq!(balance.as_str(), "100.50");
}

// ===== Currency tests =====

#[test]
fn test_currency_new() {
    let currency = Currency::new("USD".to_string());
    assert_eq!(currency.as_str(), "USD");
}

// ===== OrderId tests =====

#[test]
fn test_order_id_new() {
    let id = OrderId::new(12345);
    assert_eq!(id.as_usize(), 12345);
}

#[test]
fn test_order_id_new_zero() {
    let id = OrderId::new(0);
    assert_eq!(id.as_usize(), 0);
}

#[test]
fn test_order_id_new_large() {
    let id = OrderId::new(18_446_744_073_709_551_615);
    assert_eq!(id.as_usize(), 18_446_744_073_709_551_615);
}
