use latosol::db::assets::AssetCollection;
use latosol::db::error::DbResultError;
use latosol::db::models::DeviceType;
use latosol::db::results::{BsonValue, InsertOneResult, inserted_id};
use latosol::db::{Database, DatabaseLocation, Doc, Id};

#[test]
fn id_round_trips_its_bytes() {
    let bytes = [1u8, 2, 3, 4, 5, 6, 7, 8, 9, 10, 11, 12];
    let id = Id::from_bytes(bytes);
    assert_eq!(id.bytes(), bytes);
}

#[test]
fn doc_accessors() {
    let id = Id::from_bytes([0u8; 12]);
    let mut doc = Doc::new(id, String::from("payload"));
    assert_eq!(doc.id(), id);
    assert_eq!(doc.value(), "payload");
    *doc.value_mut() = String::from("changed");
    assert_eq!(doc.value(), "changed");
    assert_eq!(doc.into_value(), "changed");
}

#[test]
fn inserted_id_accepts_object_ids() {
    let id = Id::from_bytes([7u8; 12]);
    let res = InsertOneResult { inserted_id: BsonValue::ObjectId(id) };
    assert_eq!(inserted_id(res).unwrap(), id);
}

#[test]
fn inserted_id_rejects_other_values() {
    let res = InsertOneResult { inserted_id: BsonValue::Other };
    let err = inserted_id(res).unwrap_err();
    assert_eq!(err, DbResultError::NoInsertedObjectId { actual: BsonValue::Other });
    assert_eq!(
        err.message(),
        "Expected an object id in response to insert operation"
    );
}

#[test]
fn device_type_codes() {
    assert_eq!(DeviceType::Unknown.code(), 0);
    assert_eq!(DeviceType::Mobile.code(), 1);
    assert_eq!(DeviceType::Desktop.code(), 2);
    assert_eq!(DeviceType::Cli.code(), 3);
    assert_eq!(DeviceType::Web.code(), 4);
    for code in 0u8..5 {
        assert_eq!(DeviceType::from_code(code).unwrap().code(), code);
    }
    assert_eq!(DeviceType::from_code(5), None);
    assert_eq!(DeviceType::from_code(255), None);
}

#[test]
fn asset_collection_is_named_assets() {
    let db = Database { name: String::from("main") };
    let assets = AssetCollection::new(&db);
    assert_eq!(assets.collection_name(), "assets");
}

#[test]
fn database_location_holds_both_parts() {
    let loc = DatabaseLocation {
        uri: String::from("mongodb://localhost"),
        database: String::from("main"),
    };
    assert_eq!(loc.uri, "mongodb://localhost");
    assert_eq!(loc.database, "main");
}
