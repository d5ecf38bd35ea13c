use station_bridge::handler::{conclude, first_station, plan, FetchError, Step, UpstreamError};
use station_bridge::station::{locale_of, Line, Locale, Params, Station};

fn shibuya() -> Station {
    Station {
        name: String::from("Shibuya"),
        name_roman: Some(String::from("Shibuya")),
        lines: vec![
            Line {
                name_short: String::from("JY"),
                name_roman: Some(String::from("Yamanote Line")),
            },
            Line {
                name_short: String::from("JR"),
                name_roman: Some(String::from("Shinkansen")),
            },
        ],
    }
}

#[test]
fn missing_latitude_reply() {
    let p = Params { latitude_bits: None, longitude_bits: Some(0), en: None };
    match plan(&p) {
        Step::Reply(t) => assert_eq!(t, "ERROR! The parameter `latitude` isn't present."),
        Step::Call(_) => panic!("a query without latitude must not dispatch"),
    }
}

#[test]
fn missing_longitude_reply() {
    let p = Params { latitude_bits: Some(0), longitude_bits: None, en: None };
    match plan(&p) {
        Step::Reply(t) => assert_eq!(t, "ERROR! The parameter `longitude` isn't present."),
        Step::Call(_) => panic!("a query without longitude must not dispatch"),
    }
}

#[test]
fn latitude_checked_first() {
    let p = Params { latitude_bits: None, longitude_bits: None, en: Some(true) };
    match plan(&p) {
        Step::Reply(t) => assert_eq!(t, "ERROR! The parameter `latitude` isn't present."),
        Step::Call(_) => panic!("a query without coordinates must not dispatch"),
    }
}

#[test]
fn valid_query_dispatches_one_call_with_limit_one() {
    let lat = 35.658_f64.to_bits();
    let lon = 139.701_f64.to_bits();
    let p = Params { latitude_bits: Some(lat), longitude_bits: Some(lon), en: None };
    match plan(&p) {
        Step::Call(req) => {
            assert_eq!(req.latitude_bits, lat);
            assert_eq!(req.longitude_bits, lon);
            assert_eq!(req.limit, Some(1));
        }
        Step::Reply(t) => panic!("a complete query must dispatch, got reply {t}"),
    }
}

#[test]
fn shibuya_default_rendering() {
    let text = conclude(Ok(vec![shibuya()]), locale_of(None));
    assert_eq!(text, "Shibuya\nJY, JR");
}

#[test]
fn shibuya_localized_rendering() {
    let text = conclude(Ok(vec![shibuya()]), locale_of(Some(true)));
    assert_eq!(text, "Shibuya\nYamanote Line, Shinkansen");
}

#[test]
fn en_false_keeps_default_names() {
    let text = conclude(Ok(vec![shibuya()]), locale_of(Some(false)));
    assert_eq!(text, "Shibuya\nJY, JR");
}

#[test]
fn missing_localized_names_become_empty() {
    let st = Station {
        name: String::from("Shibuya"),
        name_roman: None,
        lines: vec![
            Line { name_short: String::from("JY"), name_roman: None },
            Line { name_short: String::from("JR"), name_roman: Some(String::from("Shinkansen")) },
        ],
    };
    let text = conclude(Ok(vec![st]), Locale::Localized);
    assert_eq!(text, "\n, Shinkansen");
}

#[test]
fn a_station_without_lines_still_renders() {
    let st = Station { name: String::from("Shibuya"), name_roman: None, lines: vec![] };
    let text = conclude(Ok(vec![st]), Locale::Default);
    assert_eq!(text, "Shibuya\n");
}

#[test]
fn a_single_line_needs_no_separator() {
    let st = Station {
        name: String::from("Shibuya"),
        name_roman: None,
        lines: vec![Line { name_short: String::from("JY"), name_roman: None }],
    };
    let text = conclude(Ok(vec![st]), Locale::Default);
    assert_eq!(text, "Shibuya\nJY");
}

#[test]
fn only_the_first_station_is_rendered() {
    let mut second = shibuya();
    second.name = String::from("Ebisu");
    let text = conclude(Ok(vec![shibuya(), second]), Locale::Default);
    assert_eq!(text, "Shibuya\nJY, JR");
}

#[test]
fn empty_result_is_not_found() {
    let text = conclude(Ok(vec![]), Locale::Default);
    assert_eq!(text, "ERROR! No station was found around the given coordinates.");
}

#[test]
fn empty_result_is_a_distinct_condition() {
    match first_station(vec![]) {
        Err(FetchError::NoResult) => {}
        _ => panic!("an empty result sequence must be the distinct no-result condition"),
    }
}

#[test]
fn transport_failure_is_reported() {
    let text = conclude(Err(UpstreamError::Transport), Locale::Default);
    assert_eq!(text, "ERROR! Couldn't reach the upstream station service.");
}

#[test]
fn bad_url_is_reported() {
    let text = conclude(Err(UpstreamError::BadUrl), Locale::Localized);
    assert_eq!(text, "ERROR! The upstream URL is malformed.");
}

#[test]
fn rpc_status_is_reported_with_its_code() {
    let text = conclude(Err(UpstreamError::RpcStatus(14)), Locale::Default);
    assert_eq!(text, "ERROR! The upstream call failed with status 14.");
}

#[test]
fn same_query_same_text() {
    let first = conclude(Ok(vec![shibuya()]), locale_of(Some(true)));
    let second = conclude(Ok(vec![shibuya()]), locale_of(Some(true)));
    assert_eq!(first, second);
    let failed_once = conclude(Err(UpstreamError::Transport), Locale::Default);
    let failed_twice = conclude(Err(UpstreamError::Transport), Locale::Default);
    assert_eq!(failed_once, failed_twice);
}
