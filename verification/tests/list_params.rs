use gvm_mcp::mcp::tools::common::{DeleteParams, ListParams};

#[test]
fn list_params_map_to_gateway_query_names() {
    let params = ListParams {
        filter: Some("severity>5".into()),
        filter_id: None,
        page: Some(2),
        per_page: Some(50),
    };
    assert_eq!(
        params.to_query(),
        vec![
            ("filter", "severity>5".to_string()),
            ("page", "2".to_string()),
            ("perPage", "50".to_string()),
        ]
    );
}

#[test]
fn empty_list_params_produce_no_query() {
    assert!(ListParams::default().to_query().is_empty());
}

#[test]
fn delete_params_only_send_ultimate_when_set() {
    let plain = DeleteParams {
        id: "x".into(),
        ultimate: None,
    };
    assert!(plain.to_query().is_empty());

    let ultimate = DeleteParams {
        id: "x".into(),
        ultimate: Some(true),
    };
    assert_eq!(ultimate.to_query(), vec![("ultimate", "true".to_string())]);
}

#[test]
fn all_list_params_keep_their_order() {
    let params = ListParams {
        filter: Some("name~web".into()),
        filter_id: Some("f-1".into()),
        page: Some(0),
        per_page: Some(1000),
    };
    assert_eq!(
        params.to_query(),
        vec![
            ("filter", "name~web".to_string()),
            ("filterId", "f-1".to_string()),
            ("page", "0".to_string()),
            ("perPage", "1000".to_string()),
        ]
    );
}

#[test]
fn ultimate_false_is_sent_as_false() {
    let params = DeleteParams {
        id: "x".into(),
        ultimate: Some(false),
    };
    assert_eq!(params.to_query(), vec![("ultimate", "false".to_string())]);
}
