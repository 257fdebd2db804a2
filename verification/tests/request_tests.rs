use fjordvind::digits::decimal_string;
use fjordvind::request::request_descriptor;

#[test]
fn descriptor_holds_the_fixed_constants() {
    let r = request_descriptor();
    assert_eq!(
        r.url,
        "https://gis.fiskeridir.no/server/rest/services/Yggdrasil/Akvakulturregisteret/FeatureServer/0/query?where=1%3D1&outFields=*&f=geojson&outSR=4326&resultRecordCount=5000"
    );
    assert_eq!(r.user_agent, "FjordVind/1.0.0");
    assert_eq!(r.accept, "application/json");
}

#[test]
fn timeout_is_sixty_seconds() {
    assert_eq!(request_descriptor().timeout_secs, 60);
}

#[test]
fn decimal_rendering_is_exact() {
    assert_eq!(decimal_string(0), "0");
    assert_eq!(decimal_string(7), "7");
    assert_eq!(decimal_string(10), "10");
    assert_eq!(decimal_string(404), "404");
    assert_eq!(decimal_string(500), "500");
    assert_eq!(decimal_string(65535), "65535");
}
