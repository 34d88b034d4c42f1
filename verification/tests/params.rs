use px6_client::ip::IpAddress;
use px6_client::params::Buy;
use px6_client::params::Check;
use px6_client::params::Delete;
use px6_client::params::GetCount;
use px6_client::params::GetCountry;
use px6_client::params::GetPrice;
use px6_client::params::GetProxy;
use px6_client::params::IpAuth;
use px6_client::params::Prolong;
use px6_client::params::SetDescription;
use px6_client::params::SetType;
use px6_client::value_object::Country;
use px6_client::value_object::IpsToConnect;
use px6_client::value_object::PageLimit;
use px6_client::value_object::ProxyDescription;
use px6_client::value_object::ProxyId;
use px6_client::value_object::ProxyPeriod;
use px6_client::value_object::ProxyStatus;
use px6_client::value_object::ProxyString;
use px6_client::value_object::ProxyType;
use px6_client::value_object::ProxyVersion;

#[test]
fn test_convert_full_get_price_to_query_string() {
    let request = GetPrice {
        count: 10,
        period: ProxyPeriod::new(30).unwrap(),
        version: Some(ProxyVersion::Ipv6),
    };

    assert_eq!(request.to_query_string(), "count=10&period=30&version=6");
}

#[test]
fn test_convert_minimal_get_price_to_query_string() {
    let request = GetPrice {
        count: 10,
        period: ProxyPeriod::new(30).unwrap(),
        version: None,
    };

    assert_eq!(request.to_query_string(), "count=10&period=30");
}

#[test]
fn test_convert_minimal_get_count_to_query_string() {
    let request = GetCount {
        country: Country::new("uk").unwrap(),
        version: None,
    };

    assert_eq!(request.to_query_string(), "country=uk");
}

#[test]
fn test_convert_full_get_country_to_query_string() {
    let request = GetCountry {
        version: Some(ProxyVersion::Ipv6),
    };

    assert_eq!(request.to_query_string(), "version=6");
}

#[test]
fn test_convert_minimal_get_country_to_query_string() {
    let request = GetCountry { version: None };

    assert_eq!(request.to_query_string(), "");
}

#[test]
fn test_convert_full_get_proxy_to_query_string() {
    let request = GetProxy {
        state: Some(ProxyStatus::Active),
        description: Some(ProxyDescription::new("test_description").unwrap()),
        page: Some(3),
        limit: Some(PageLimit::new(10).unwrap()),
    };

    assert_eq!(
        request.to_query_string(),
        "state=active&descr=test_description&page=3&limit=10&nokey"
    );
}

#[test]
fn test_convert_minimal_get_proxy_to_query_string() {
    let request = GetProxy {
        state: None,
        description: None,
        page: None,
        limit: None,
    };

    assert_eq!(request.to_query_string(), "nokey");
}

#[test]
fn test_convert_full_set_type_to_query_string() {
    let request = SetType {
        ids: vec![ProxyId::new("id1"), ProxyId::new("id2")],
        protocol: ProxyType::Socks5,
    };

    assert_eq!(request.to_query_string(), "ids=id1,id2&type=socks");
}

#[test]
fn test_convert_full_set_description_to_query_string() {
    let request = SetDescription {
        new: ProxyDescription::new("new_proxy_description").unwrap(),
        old: Some(ProxyDescription::new("old_proxy_description").unwrap()),
        ids: Some(vec![ProxyId::new("id1"), ProxyId::new("id2")]),
    };

    assert_eq!(
        request.to_query_string(),
        "new=new_proxy_description&old=old_proxy_description&ids=id1,id2"
    );
}

#[test]
fn test_convert_minimal_set_description_to_query_string() {
    let request = SetDescription {
        new: ProxyDescription::new("new_proxy_description").unwrap(),
        old: None,
        ids: None,
    };

    assert_eq!(request.to_query_string(), "new=new_proxy_description");
}

#[test]
fn test_convert_full_buy_to_query_string() {
    let request = Buy {
        count: 100,
        period: ProxyPeriod::new(30).unwrap(),
        country: Country::new("us").unwrap(),
        version: Some(ProxyVersion::Ipv6),
        protocol: Some(ProxyType::Http),
        description: Some(ProxyDescription::new("new_proxy_description").unwrap()),
        auto_prolong: true,
    };

    assert_eq!(
        request.to_query_string(),
        "count=100&period=30&country=us&version=6&type=http&descr=new_proxy_description&auto_prolong&nokey"
    );
}

#[test]
fn test_convert_minimal_buy_to_query_string() {
    let request = Buy {
        count: 100,
        period: ProxyPeriod::new(30).unwrap(),
        country: Country::new("us").unwrap(),
        version: None,
        protocol: None,
        description: None,
        auto_prolong: false,
    };

    assert_eq!(
        request.to_query_string(),
        "count=100&period=30&country=us&nokey"
    );
}

#[test]
fn test_convert_full_prolong_to_query_string() {
    let request = Prolong {
        period: ProxyPeriod::new(30).unwrap(),
        ids: vec![ProxyId::new("id1"), ProxyId::new("id2")],
    };

    assert_eq!(request.to_query_string(), "period=30&ids=id1,id2&nokey");
}

#[test]
fn test_convert_full_delete_to_query_string() {
    let request = Delete {
        ids: Some(vec![ProxyId::new("id1"), ProxyId::new("id2")]),
        description: Some(ProxyDescription::new("new_proxy_description").unwrap()),
    };

    assert_eq!(
        request.to_query_string(),
        "ids=id1,id2&descr=new_proxy_description"
    );
}

#[test]
fn test_convert_minimal_delete_to_query_string() {
    let request = Delete {
        ids: None,
        description: None,
    };

    assert_eq!(request.to_query_string(), "");
}

#[test]
fn test_convert_full_check_to_query_string() {
    let request = Check {
        ids: Some(vec![ProxyId::new("id1"), ProxyId::new("id2")]),
        proxy_string: Some(ProxyString::new("127.0.0.1:8080:user:pass").unwrap()),
    };

    assert_eq!(
        request.to_query_string(),
        "ids=id1,id2&proxy=127.0.0.1:8080:user:pass"
    );
}

#[test]
fn test_convert_minimal_check_to_query_string() {
    let request = Check {
        ids: None,
        proxy_string: None,
    };

    assert_eq!(request.to_query_string(), "");
}

#[test]
fn test_convert_delete_ip_auth_to_query_string() {
    let request = IpAuth {
        ip: IpsToConnect::Delete,
    };

    assert_eq!(request.to_query_string(), "ip=delete");
}

#[test]
fn test_convert_select_ip_auth_to_query_string() {
    let request = IpAuth {
        ip: IpsToConnect::Connect(vec![
            IpAddress::parse("127.0.0.1").unwrap(),
            IpAddress::parse("127.0.0.2").unwrap(),
        ]),
    };

    assert_eq!(request.to_query_string(), "ip=127.0.0.1,127.0.0.2");
}

#[test]
fn test_query_string_encoding_idempotent() {
    let request = GetPrice {
        count: 10,
        period: ProxyPeriod::new(30).unwrap(),
        version: Some(ProxyVersion::Ipv6),
    };

    assert_eq!(request.to_query_string(), request.to_query_string());
}
