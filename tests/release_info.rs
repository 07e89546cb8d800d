use alvr_dashboard::ReleaseInfo;

#[test]
fn assets_are_looked_up_by_name() {
    let mut r = ReleaseInfo::new("20.1.0".to_string());
    assert_eq!(r.version(), "20.1.0");
    assert_eq!(r.asset_count(), 0);
    r.insert_asset("win".to_string(), "url1".to_string());
    r.insert_asset("linux".to_string(), "url2".to_string());
    assert_eq!(r.asset_count(), 2);
    assert_eq!(r.asset(&"win".to_string()), Some(&"url1".to_string()));
    assert_eq!(r.asset(&"linux".to_string()), Some(&"url2".to_string()));
    assert_eq!(r.asset(&"mac".to_string()), None);
}

#[test]
fn inserting_a_known_name_replaces_its_location() {
    let mut r = ReleaseInfo::new("20.1.0".to_string());
    r.insert_asset("win".to_string(), "url1".to_string());
    r.insert_asset("win".to_string(), "url3".to_string());
    assert_eq!(r.asset_count(), 1);
    assert_eq!(r.asset(&"win".to_string()), Some(&"url3".to_string()));
}
