use swissdata::fso::asset::Asset;
use swissdata::fso::communes::{datastore, TXT_ASSET_ID, XML_ASSET_ID};

#[test]
fn asset_url_templates() {
    let asset = Asset::from(4711u32);
    assert_eq!(
        asset.url_data(),
        "https://dam-api.bfs.admin.ch/hub/api/dam/assets/4711/master"
    );
    assert_eq!(
        asset.url_bibtex(),
        "https://dam-api.bfs.admin.ch/hub/api/dam/assets/4711/bibtex"
    );
    assert_eq!(
        asset.url_ris(),
        "https://dam-api.bfs.admin.ch/hub/api/dam/assets/4711/ris"
    );
}

#[test]
fn asset_url_for_id_zero() {
    let asset = Asset::from(0u32);
    assert_eq!(
        asset.url_data(),
        "https://dam-api.bfs.admin.ch/hub/api/dam/assets/0/master"
    );
}

#[test]
fn datastore_assets() {
    assert_eq!(TXT_ASSET_ID, 23886071);
    assert_eq!(XML_ASSET_ID, 23886070);
    let store = datastore();
    assert_eq!(
        store.asset().url_data(),
        "https://dam-api.bfs.admin.ch/hub/api/dam/assets/23886071/master"
    );
    assert_eq!(
        store.asset_xml().url_data(),
        "https://dam-api.bfs.admin.ch/hub/api/dam/assets/23886070/master"
    );
}
