use azure_mgmt::error::SimpleError;
use azure_mgmt::http::Method;
use azure_mgmt::http::Response;
use azure_mgmt::http::ResponseHeader;
use azure_mgmt::ident::AzureId;
use azure_mgmt::ident::AzureName;
use azure_mgmt::json::Json;
use azure_mgmt::management::vm::deallocate_request;
use azure_mgmt::management::vm::instance_view_request;
use azure_mgmt::management::vm::start_request;
use azure_mgmt::management::vm::vm_uri;
use azure_mgmt::management::vm::ActionStep;
use azure_mgmt::management::vm::ActionTask;
use azure_mgmt::management::vm::InstanceView;
use azure_mgmt::management::vm::Status;
use azure_mgmt::management::vm::VmAgent;
use azure_mgmt::time::Span;
use azure_mgmt::time::Timestamp;

fn ids() -> (AzureId, AzureName, AzureName) {
    (
        AzureId::new("sub-1".to_owned()).unwrap(),
        AzureName::new("rg_1".to_owned()).unwrap(),
        AzureName::new("vm.1".to_owned()).unwrap(),
    )
}

fn response(status: u16, body: &str) -> Response {
    Response {
        status,
        headers: Vec::new(),
        body: body.to_owned(),
    }
}

/// The point in time `secs` seconds after the answers of these tests come
/// in.
fn after(secs: i64) -> Timestamp {
    Timestamp::new(70 + secs, 5).unwrap()
}

fn accepted(location: &[u8]) -> Response {
    Response {
        status: 202,
        headers: vec![ResponseHeader {
            name: "location".to_owned(),
            value: location.to_vec(),
        }],
        body: String::new(),
    }
}

#[test]
fn vm_uri_is_composed_of_its_parts() {
    let (sub, rg, vm) = ids();
    assert_eq!(
        vm_uri(&sub, &rg, &vm, "powerOff", "2020-01-01"),
        "https://management.azure.com/subscriptions/sub-1/resourceGroups/rg_1/providers/Microsoft.Compute/virtualMachines/vm.1/powerOff?api-version=2020-01-01"
    );
}

#[test]
fn start_is_a_post_with_an_empty_body() {
    let (sub, rg, vm) = ids();
    let request = start_request(&sub, &rg, &vm);
    assert_eq!(request.method, Method::Post);
    assert_eq!(
        request.uri,
        "https://management.azure.com/subscriptions/sub-1/resourceGroups/rg_1/providers/Microsoft.Compute/virtualMachines/vm.1/start?api-version=2021-11-01"
    );
    assert!(request.headers.is_empty());
    assert_eq!(request.body, Some(Vec::new()));
}

#[test]
fn deallocate_is_a_post_with_an_empty_body() {
    let (sub, rg, vm) = ids();
    let request = deallocate_request(&sub, &rg, &vm);
    assert_eq!(request.method, Method::Post);
    assert_eq!(
        request.uri,
        "https://management.azure.com/subscriptions/sub-1/resourceGroups/rg_1/providers/Microsoft.Compute/virtualMachines/vm.1/deallocate?api-version=2021-11-01"
    );
    assert!(request.headers.is_empty());
    assert_eq!(request.body, Some(Vec::new()));
}

#[test]
fn instance_view_is_a_get() {
    let (sub, rg, vm) = ids();
    let request = instance_view_request(&sub, &rg, &vm);
    assert_eq!(request.method, Method::Get);
    assert_eq!(
        request.uri,
        "https://management.azure.com/subscriptions/sub-1/resourceGroups/rg_1/providers/Microsoft.Compute/virtualMachines/vm.1/instanceView?api-version=2021-11-01"
    );
    assert!(request.headers.is_empty());
    assert_eq!(request.body, Some(Vec::new()));
}

#[test]
fn action_waits_at_the_location_and_drops_the_final_response() {
    let action = ActionTask::from_response(&accepted(b"https://example.com/op/9"), after(0)).unwrap();
    let request = action.poll_request();
    assert_eq!(request.method, Method::Get);
    assert_eq!(request.uri, "https://example.com/op/9");
    let action = match action.step(Ok(response(202, "")), &after(0)) {
        ActionStep::Sleep(action) => action,
        other => panic!("unexpected: {:?}", other),
    };
    assert!(matches!(
        action.step(Ok(response(200, "ignored")), &after(3)),
        ActionStep::Done(Ok(()))
    ));
}

#[test]
fn action_times_out_after_its_limit() {
    let action = ActionTask::from_response(&accepted(b"https://example.com/op/9"), after(0))
        .unwrap()
        .timeout(Some(Span::from_secs(120)));
    let action = match action.step(Ok(response(202, "")), &after(120)) {
        ActionStep::Sleep(action) => action,
        other => panic!("unexpected: {:?}", other),
    };
    assert!(matches!(
        action.step(Ok(response(202, "")), &after(121)),
        ActionStep::Done(Err(SimpleError::Timeout))
    ));
}

#[test]
fn action_hands_on_a_failure() {
    let action = ActionTask::from_response(&accepted(b"https://example.com/op/9"), after(0)).unwrap();
    let failure = SimpleError::HttpStatus {
        status: 404,
        body: "gone".to_owned(),
    };
    match action.step(Err(failure), &after(0)) {
        ActionStep::Done(Err(SimpleError::HttpStatus { status, body })) => {
            assert_eq!(status, 404);
            assert_eq!(body, "gone");
        }
        other => panic!("unexpected: {:?}", other),
    }
}

#[test]
fn action_needs_a_location() {
    assert!(matches!(
        ActionTask::from_response(&response(202, ""), after(0)),
        Err(SimpleError::MissingLocation)
    ));
    assert!(matches!(
        ActionTask::from_response(&accepted(&[0x80]), after(0)),
        Err(SimpleError::ToStrError)
    ));
    assert!(matches!(
        ActionTask::from_response(&accepted(b"a b"), after(0)),
        Err(SimpleError::InvalidUri)
    ));
}

#[test]
fn instance_view_with_a_ready_agent() {
    let view = InstanceView::parse(
        "{\"computerName\":\"x\",\"vmAgent\":{\"vmAgentVersion\":\"2\",\"statuses\":[{\"code\":\"ProvisioningState/succeeded\",\"displayStatus\":\"Ready\"},{\"displayStatus\":\"Other\"}]}}",
    )
    .unwrap();
    let agent = view.vm_agent.as_ref().unwrap();
    assert_eq!(agent.statuses.len(), 2);
    assert_eq!(agent.statuses[0].display_status, "Ready");
    assert_eq!(agent.statuses[1].display_status, "Other");
    assert!(view.is_ready());
}

#[test]
fn instance_view_without_an_agent() {
    let missing = InstanceView::parse("{\"statuses\":[]}").unwrap();
    assert!(missing.vm_agent.is_none());
    assert!(!missing.is_ready());
    let null = InstanceView::parse("{\"vmAgent\":null}").unwrap();
    assert!(null.vm_agent.is_none());
    assert!(!null.is_ready());
}

#[test]
fn only_the_first_status_counts() {
    let not_first = InstanceView {
        vm_agent: Some(VmAgent {
            statuses: vec![
                Status {
                    display_status: "Not Ready".to_owned(),
                },
                Status {
                    display_status: "Ready".to_owned(),
                },
            ],
        }),
    };
    assert!(!not_first.is_ready());
    let none = InstanceView {
        vm_agent: Some(VmAgent { statuses: vec![] }),
    };
    assert!(!none.is_ready());
    let lower = InstanceView {
        vm_agent: Some(VmAgent {
            statuses: vec![Status {
                display_status: "ready".to_owned(),
            }],
        }),
    };
    assert!(!lower.is_ready());
}

#[test]
fn instance_view_of_another_shape_is_refused() {
    for body in [
        "[]",
        "5",
        "{\"vmAgent\":{}}",
        "{\"vmAgent\":5}",
        "{\"vmAgent\":{\"statuses\":{}}}",
        "{\"vmAgent\":{\"statuses\":[{}]}}",
        "{\"vmAgent\":{\"statuses\":[{\"displayStatus\":1}]}}",
        "{\"vmAgent\":{\"statuses\":[{\"displayStatus\":\"Ready\"},5]}}",
    ] {
        assert!(
            matches!(InstanceView::parse(body), Err(SimpleError::UnexpectedShape)),
            "{}",
            body
        );
    }
    assert!(matches!(
        InstanceView::parse("{\"vmAgent\":"),
        Err(SimpleError::SerdeError(_))
    ));
}

#[test]
fn parts_are_read_from_trees() {
    let status = Json::Object(vec![(
        "displayStatus".to_owned(),
        Json::Text("Ready".to_owned()),
    )]);
    assert_eq!(Status::from_json(&status).unwrap().display_status, "Ready");
    assert!(Status::from_json(&Json::Null).is_none());
    let agent = Json::Object(vec![("statuses".to_owned(), Json::Array(vec![status]))]);
    assert_eq!(VmAgent::from_json(&agent).unwrap().statuses.len(), 1);
    assert!(VmAgent::from_json(&Json::Array(vec![])).is_none());
    let view = InstanceView::from_json(&Json::Object(vec![("vmAgent".to_owned(), agent)])).unwrap();
    assert!(view.is_ready());
}
