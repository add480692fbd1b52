use lib_rest_core::rest_result::DataRestResult;
use lib_rest_core::rest_result::RestResponse;
use lib_rest_core::rest_result::created;
use lib_rest_core::rest_result::no_content;
use lib_rest_core::rest_result::ok;

#[test]
fn created_wraps_with_status_201() {
    let r = created(5u32);
    assert_eq!(r.status, 201);
    match r.body {
        Some(DataRestResult { data }) => assert_eq!(data, 5u32),
        None => panic!("a 201 response carries a body"),
    }
}

#[test]
fn ok_wraps_with_status_200() {
    let r = ok(String::from("widget"));
    assert_eq!(r.status, 200);
    match r.body {
        Some(DataRestResult { data }) => assert_eq!(data, "widget"),
        None => panic!("a 200 response carries a body"),
    }
}

#[test]
fn no_content_has_status_204_and_empty_body() {
    let r: RestResponse<u32> = no_content();
    assert_eq!(r.status, 204);
    assert!(r.body.is_none());
}

#[test]
fn from_wraps_any_value_under_the_data_key() {
    let wrapped: DataRestResult<&str> = DataRestResult::from("anything");
    assert_eq!(wrapped.data, "anything");
    let wrapped_vec: DataRestResult<Vec<u8>> = DataRestResult::from(vec![1u8, 2, 3]);
    assert_eq!(wrapped_vec.data, vec![1u8, 2, 3]);
}
