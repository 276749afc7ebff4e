use mogcord::db::mongol::helper::{
    convert_domain_id_to_mongol, convert_domain_ids_to_mongol, convert_id_list, CalendarDate,
    CalendarDateTime, MongolHelper, HELPER_STACK,
};
use mogcord::error::{Kind, OnType};
use mogcord::ids::MongolId;

const ID_A: &str = "550e8400-e29b-41d4-a716-446655440000";
const ID_B: &str = "6fa459ea-ee8a-3ca4-894e-db77e160355e";

#[test]
fn hyphenated_uuid_converts_to_its_value() {
    let id = convert_domain_id_to_mongol(ID_A).unwrap();
    assert_eq!(id, MongolId(0x550e8400e29b41d4a716446655440000));
}

#[test]
fn simple_and_braced_uuid_forms_are_accepted() {
    let simple = convert_domain_id_to_mongol("550e8400e29b41d4a716446655440000").unwrap();
    let braced = convert_domain_id_to_mongol("{550e8400-e29b-41d4-a716-446655440000}").unwrap();
    assert_eq!(simple, MongolId(0x550e8400e29b41d4a716446655440000));
    assert_eq!(braced, simple);
    let urn = convert_domain_id_to_mongol("URN:uuid:550E8400-E29B-41D4-A716-446655440000").unwrap();
    assert_eq!(urn, simple);
    assert!(convert_domain_id_to_mongol("550e8400-e29b-41d4-a716+446655440000").is_err());
    assert!(convert_domain_id_to_mongol("{550e8400-e29b-41d4-a716-446655440000)").is_err());
    assert!(convert_domain_id_to_mongol("550e8400e29b41d4a716446655440g00").is_err());
}

#[test]
fn invalid_id_gives_invalid_mongo_error_with_the_id() {
    let err = convert_domain_id_to_mongol("not-a-uuid").unwrap_err();
    assert_eq!(err.kind, Kind::InValid);
    assert_eq!(err.on_type, OnType::Mongo);
    assert_eq!(err.stack, HELPER_STACK);
    assert_eq!(err.debug_info, vec![("incoming id".to_string(), "not-a-uuid".to_string())]);
    assert!(err.pub_info.is_none());
    assert!(err.child.is_none());
}

#[test]
fn empty_id_is_invalid() {
    assert!(convert_domain_id_to_mongol("").is_err());
}

#[test]
fn id_list_converts_in_order() {
    let ids = convert_domain_ids_to_mongol(&[ID_B, ID_A]).unwrap();
    assert_eq!(
        ids,
        vec![
            MongolId(0x6fa459eaee8a3ca4894edb77e160355e),
            MongolId(0x550e8400e29b41d4a716446655440000)
        ]
    );
}

#[test]
fn id_list_empty_is_ok_and_empty() {
    assert_eq!(convert_domain_ids_to_mongol(&[]).unwrap(), Vec::<MongolId>::new());
}

#[test]
fn id_list_fails_on_first_invalid() {
    let err = convert_domain_ids_to_mongol(&[ID_A, "bad-one", "bad-two"]).unwrap_err();
    assert_eq!(err.debug_info, vec![("incoming id".to_string(), "bad-one".to_string())]);
}

#[test]
fn owned_id_list_fails_on_first_invalid() {
    let ids = vec![ID_A.to_string(), "x".to_string(), "y".to_string()];
    let err = convert_id_list(&ids).unwrap_err();
    assert_eq!(err.debug_info[0].1, "x");
    let ok = convert_id_list(&vec![ID_B.to_string()]).unwrap();
    assert_eq!(ok, vec![MongolId(0x6fa459eaee8a3ca4894edb77e160355e)]);
}

#[test]
fn calendar_datetime_converts_to_bson_millis() {
    let t = CalendarDateTime { year: 2024, month: 1, day: 2, hour: 3, minute: 4, second: 5 };
    assert_eq!(t.convert_to_bson_datetime().unwrap(), 1_704_164_645_000);
    assert_eq!(t.convert_to_bson_date().unwrap(), 1_704_153_600_000);
}

#[test]
fn calendar_date_converts_to_midnight() {
    let d = CalendarDate { year: 1970, month: 1, day: 2 };
    assert_eq!(d.convert_to_bson_date().unwrap(), 86_400_000);
    assert_eq!(d.convert_to_bson_datetime().unwrap(), 86_400_000);
}

#[test]
fn invalid_calendar_values_are_rejected() {
    let bad_month = CalendarDateTime { year: 2024, month: 13, day: 1, hour: 0, minute: 0, second: 0 };
    assert!(bad_month.convert_to_bson_date().is_err());
    let bad_day = CalendarDate { year: 2023, month: 2, day: 29 };
    assert!(bad_day.convert_to_bson_date().is_err());
    let bad_hour = CalendarDateTime { year: 2024, month: 1, day: 1, hour: 24, minute: 0, second: 0 };
    assert!(bad_hour.convert_to_bson_datetime().is_err());
    assert!(bad_hour.convert_to_bson_date().is_ok());
}
