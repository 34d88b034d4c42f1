use px6_client::ip::IpAddress;
use px6_client::method::ApiMethod;
use px6_client::params;
use px6_client::params::render_pairs;
use px6_client::value_object::Country;
use px6_client::value_object::IpsToConnect;
use px6_client::value_object::ProxyDescription;
use px6_client::value_object::ProxyId;
use px6_client::value_object::ProxyPeriod;
use px6_client::value_object::ProxyType;
use px6_client::value_object::ProxyVersion;

#[test]
fn test_get_price_display() {
    let params = params::GetPrice {
        count: 10,
        period: ProxyPeriod::new(30).unwrap(),
        version: Some(ProxyVersion::Ipv6),
    };
    let method = ApiMethod::GetPrice(params);

    assert_eq!(method.method_name(), "getprice");
}

#[test]
fn test_get_count_display() {
    let params = params::GetCount {
        country: Country::new("us").unwrap(),
        version: None,
    };
    let method = ApiMethod::GetCount(params);

    assert_eq!(method.method_name(), "getcount");
}

#[test]
fn test_get_country_display() {
    let params = params::GetCountry {
        version: Some(ProxyVersion::Ipv4),
    };
    let method = ApiMethod::GetCountry(params);

    assert_eq!(method.method_name(), "getcountry");
}

#[test]
fn test_get_proxy_display() {
    let params = params::GetProxy {
        state: None,
        description: None,
        page: None,
        limit: None,
    };
    let method = ApiMethod::GetProxy(params);

    assert_eq!(method.method_name(), "getproxy");
}

#[test]
fn test_set_type_display() {
    let params = params::SetType {
        ids: vec![ProxyId::new("id1")],
        protocol: ProxyType::Http,
    };
    let method = ApiMethod::SetType(params);

    assert_eq!(method.method_name(), "settype");
}

#[test]
fn test_set_description_display() {
    let params = params::SetDescription {
        new: ProxyDescription::new("test").unwrap(),
        old: None,
        ids: None,
    };
    let method = ApiMethod::SetDescription(params);

    assert_eq!(method.method_name(), "setdescr");
}

#[test]
fn test_buy_display() {
    let params = params::Buy {
        count: 1,
        period: ProxyPeriod::new(30).unwrap(),
        country: Country::new("us").unwrap(),
        version: None,
        protocol: None,
        description: None,
        auto_prolong: false,
    };
    let method = ApiMethod::Buy(params);

    assert_eq!(method.method_name(), "buy");
}

#[test]
fn test_prolong_display() {
    let params = params::Prolong {
        period: ProxyPeriod::new(30).unwrap(),
        ids: vec![ProxyId::new("id1")],
    };
    let method = ApiMethod::Prolong(params);

    assert_eq!(method.method_name(), "prolong");
}

#[test]
fn test_delete_display() {
    let params = params::Delete {
        ids: None,
        description: None,
    };
    let method = ApiMethod::Delete(params);

    assert_eq!(method.method_name(), "delete");
}

#[test]
fn test_check_display() {
    let params = params::Check {
        ids: None,
        proxy_string: None,
    };
    let method = ApiMethod::Check(params);

    assert_eq!(method.method_name(), "check");
}

#[test]
fn test_ip_auth_display() {
    let params = params::IpAuth {
        ip: IpsToConnect::Delete,
    };
    let method = ApiMethod::IpAuth(params);

    assert_eq!(method.method_name(), "ipauth");
}

#[test]
fn test_get_params() {
    let params = params::GetPrice {
        count: 10,
        period: ProxyPeriod::new(30).unwrap(),
        version: Some(ProxyVersion::Ipv6),
    };
    let method = ApiMethod::GetPrice(params.clone());

    let api_params = method.get_params();
    assert_eq!(render_pairs(&api_params), "count=10&period=30&version=6");

    match method {
        ApiMethod::GetPrice(price_params) => {
            assert_eq!(price_params.count, params.count);
            assert_eq!(price_params.period.as_usize(), params.period.as_usize());
            assert_eq!(price_params.version, params.version);
        }
        _ => panic!("Expected GetPrice method"),
    }
}

#[test]
fn test_ip_auth_connect_query() {
    let params = params::IpAuth {
        ip: IpsToConnect::Connect(vec![
            IpAddress::parse("127.0.0.1").unwrap(),
            IpAddress::parse("127.0.0.2").unwrap(),
        ]),
    };
    let method = ApiMethod::IpAuth(params);
    assert_eq!(method.query_string(), "ip=127.0.0.1,127.0.0.2");
}
