use instrument::config::{AppConfig, ConfigError, SETTING_COUNT};

fn all_settings(commission: &str) -> Vec<Option<String>> {
    let mut v: Vec<Option<String>> = (0..36).map(|i| Some(format!("value{}", i))).collect();
    v.push(Some(commission.to_string()));
    v
}

#[test]
fn new_reads_every_setting_in_order() {
    assert_eq!(SETTING_COUNT, 37);
    let c = AppConfig::new(all_settings("-15")).unwrap();
    assert_eq!(c.segment_broker, "value0");
    assert_eq!(c.broker_name, "value1");
    assert_eq!(c.mongo_uri, "value2");
    assert_eq!(c.coll_a_position, "value24");
    assert_eq!(c.coll_trdr_bal, "value34");
    assert_eq!(c.coll_h_pnl_w_cmmss, "value35");
    assert_eq!(c.commission, -15);
}

#[test]
fn new_reports_the_first_missing_setting() {
    let mut v = all_settings("10");
    v[5] = None;
    v[7] = None;
    assert_eq!(AppConfig::new(v).unwrap_err(), ConfigError::Missing(5));
    let mut v = all_settings("10");
    v[36] = None;
    assert_eq!(AppConfig::new(v).unwrap_err(), ConfigError::Missing(36));
}

#[test]
fn new_refuses_a_commission_that_is_not_an_i32() {
    assert_eq!(AppConfig::new(all_settings("ten")).unwrap_err(), ConfigError::InvalidCommission);
    assert_eq!(AppConfig::new(all_settings("2147483648")).unwrap_err(), ConfigError::InvalidCommission);
    assert_eq!(AppConfig::new(all_settings(" 3")).unwrap_err(), ConfigError::InvalidCommission);
    assert_eq!(AppConfig::new(all_settings("+3")).unwrap().commission, 3);
    assert_eq!(AppConfig::new(all_settings("-2147483648")).unwrap().commission, i32::MIN);
    assert_eq!(AppConfig::new(all_settings("-")).unwrap_err(), ConfigError::InvalidCommission);
    assert_eq!(AppConfig::new(all_settings("")).unwrap_err(), ConfigError::InvalidCommission);
}
