use enclave_net::config_server::{
    ConfigServerPath, GetCertRequestDataPlane, GetCertResponseDataPlane,
    GetCertTokenRequestDataPlane, GetCertTokenResponseDataPlane, PostTrxLogsRequest,
    ProvisionerContext, Secret, TrxContext,
};

#[test]
fn config_server_paths_parse() {
    assert!(matches!(
        ConfigServerPath::from_str("/cert/token"),
        Ok(ConfigServerPath::GetCertToken)
    ));
    assert!(matches!(
        ConfigServerPath::from_str("/trx/logs"),
        Ok(ConfigServerPath::PostTrxLogs)
    ));
    match ConfigServerPath::from_str("/nope") {
        Err(e) => assert_eq!(e, "/nope"),
        Ok(_) => panic!("expected an invalid path"),
    }
}

#[test]
fn config_server_paths_print() {
    assert_eq!(ConfigServerPath::GetCertToken.to_path_string(), "/cert/token");
    assert_eq!(ConfigServerPath::PostTrxLogs.to_path_string(), "/trx/logs");
}

#[test]
fn token_round_trip() {
    let _request = GetCertTokenRequestDataPlane::new();
    let response = GetCertTokenResponseDataPlane::new("tok-123".to_string());
    assert_eq!(response.token(), "tok-123");
}

#[test]
fn cert_request_carries_the_attestation_doc() {
    let request = GetCertRequestDataPlane::new("doc-bytes".to_string());
    assert_eq!(request.attestation_doc(), "doc-bytes");
}

#[test]
fn cert_response_getters() {
    let response = GetCertResponseDataPlane::new(
        "CERT".to_string(),
        "KEY".to_string(),
        Some(vec![Secret { name: "s1".to_string(), secret: "v1".to_string() }]),
        ProvisionerContext {
            cage_uuid: "cage-uuid-1".to_string(),
            cage_name: "my-cage".to_string(),
            team_uuid: "team-uuid-1".to_string(),
            app_uuid: "app-uuid-1".to_string(),
        },
    );
    assert_eq!(response.cert(), "CERT");
    assert_eq!(response.key_pair(), "KEY");
    assert_eq!(response.secrets.as_ref().unwrap()[0].name, "s1");
    assert_eq!(response.context.team_uuid, "team-uuid-1");
}

#[test]
fn trx_logs_round_trip() {
    let logs = vec![
        TrxContext { entry: "first".to_string() },
        TrxContext { entry: "second".to_string() },
    ];
    let request = PostTrxLogsRequest::new(logs);
    let back = request.trx_logs();
    assert_eq!(back.len(), 2);
    assert_eq!(back[0].entry, "first");
    assert_eq!(back[1].entry, "second");
}
