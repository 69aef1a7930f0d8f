use clockodo_cli::clock::{
    resolve_customer, resolve_project, resolve_service, start_params, start_response_entry,
    stop_path, stop_requires_entry, stop_response_entry, StartError, StopError,
};
use clockodo_cli::model::{
    Billable, Config, Customer, EntryType, Project, Service, StatusResponse, StopResponse,
    TimeEntry,
};
use clockodo_cli::numfmt::{format_duration, u64_to_padded2, u64_to_string};
use clockodo_cli::render::{
    render_duration_json, render_entry_json, render_entry_text, render_error_json,
    render_status_json, render_stop_json, service_line,
};
use clockodo_cli::resource::{
    filtered_list_path, find_resource_by_name, project_names, resource_item_path, CustomersFilter,
};
use clockodo_cli::transport::{
    api_key_header, api_url, api_user_header, external_application_header,
    external_application_value, user_agent_value,
};
use clockodo_cli::view::{JsonOutput, StopOutput, TimeEntryOutput};

fn customer(id: u32, name: &str) -> Customer {
    Customer {
        id,
        name: name.to_string(),
    }
}

fn service(id: u32, name: &str) -> Service {
    Service {
        id,
        name: name.to_string(),
        active: true,
        note: None,
    }
}

fn entry(customers_id: u32, services_id: Option<u32>, projects_id: Option<u32>) -> TimeEntry {
    TimeEntry {
        id: 77,
        customers_id,
        projects_id,
        users_id: 5,
        time_insert: "2024-01-01T00:00:00Z".to_string(),
        billable: Billable::NotBillable,
        time_since: "2024-01-01T00:00:00Z".to_string(),
        text: None,
        entry_type: EntryType::TimeEntry,
        services_id,
    }
}

fn view() -> TimeEntryOutput {
    TimeEntryOutput {
        id: 77,
        customer: "Acme".to_string(),
        project: None,
        entry_type: EntryType::TimeEntry,
        service: Some("Dev".to_string()),
        billable: Billable::NotBillable,
        description: "[empty]".to_string(),
        time_insert: "2024-01-01 01:00:00".to_string(),
        time_since: "2024-01-01 01:00:00".to_string(),
        duration: "01:02:05".to_string(),
    }
}

const EPOCH_2024: i64 = 1704067200;

#[test]
fn find_by_name_empty_collection_is_none() {
    let r = find_resource_by_name(Vec::<Customer>::new(), &"Acme".to_string());
    assert_eq!(r, None);
}

#[test]
fn find_by_name_no_match_is_none() {
    let cs = vec![customer(1, "Acme"), customer(2, "Globex")];
    assert_eq!(find_resource_by_name(cs, &"Initech".to_string()), None);
}

#[test]
fn find_by_name_is_case_sensitive() {
    let cs = vec![customer(1, "Acme")];
    assert_eq!(find_resource_by_name(cs, &"acme".to_string()), None);
}

#[test]
fn find_by_name_returns_single_match() {
    let cs = vec![customer(1, "Acme"), customer(2, "Globex")];
    assert_eq!(
        find_resource_by_name(cs, &"Globex".to_string()),
        Some(customer(2, "Globex"))
    );
}

#[test]
fn find_by_name_returns_first_match() {
    let cs = vec![customer(1, "Acme"), customer(2, "Acme")];
    assert_eq!(
        find_resource_by_name(cs, &"Acme".to_string()),
        Some(customer(1, "Acme"))
    );
}

#[test]
fn resolve_customer_absent_fails_with_name() {
    let cs = vec![customer(1, "Acme")];
    let r = resolve_customer(cs, &"Ghost".to_string());
    assert_eq!(r, Err(StartError::CustomerNotFound("Ghost".to_string())));
}

#[test]
fn resolve_service_absent_fails_with_name() {
    let r = resolve_service(Vec::new(), &"Dev".to_string());
    assert_eq!(r, Err(StartError::ServiceNotFound("Dev".to_string())));
}

#[test]
fn resolve_project_absent_fails_with_name() {
    let ps = vec![Project {
        id: 3,
        name: "Site".to_string(),
        customers_id: 1,
    }];
    let r = resolve_project(ps, &"App".to_string());
    assert_eq!(r, Err(StartError::ProjectNotFound("App".to_string())));
}

#[test]
fn stop_with_nothing_running_fails_not_running() {
    let r = stop_requires_entry(StatusResponse { running: None });
    assert_eq!(r, Err(StopError::NotRunning));
}

#[test]
fn stop_with_running_entry_hands_it_on() {
    let e = entry(1, Some(2), None);
    let r = stop_requires_entry(StatusResponse {
        running: Some(e.clone()),
    });
    assert_eq!(r, Ok(e));
}

#[test]
fn stop_response_without_stopped_entry_fails_not_stopped() {
    let r = stop_response_entry(StopResponse {
        stopped: None,
        running: None,
    });
    assert_eq!(r, Err(StopError::NotStopped));
}

#[test]
fn start_response_without_running_entry_fails() {
    let r = start_response_entry(StatusResponse { running: None });
    assert_eq!(r, Err(StartError::FailedToStart));
}

#[test]
fn duration_one_hour_two_minutes_five_seconds() {
    assert_eq!(format_duration(3725), "01:02:05");
}

#[test]
fn duration_zero_seconds() {
    assert_eq!(format_duration(0), "00:00:00");
}

#[test]
fn duration_hours_not_capped_at_twenty_four() {
    assert_eq!(format_duration(90000), "25:00:00");
}

#[test]
fn decimal_rendering() {
    assert_eq!(u64_to_string(0), "0");
    assert_eq!(u64_to_string(42), "42");
    assert_eq!(u64_to_string(4007), "4007");
    assert_eq!(u64_to_padded2(7), "07");
    assert_eq!(u64_to_padded2(107), "107");
}

#[test]
fn billable_codes_round_trip_and_reject_unknown() {
    assert_eq!(Billable::from_code(0), Some(Billable::NotBillable));
    assert_eq!(Billable::from_code(1), Some(Billable::Billable));
    assert_eq!(Billable::from_code(2), Some(Billable::AlreadyBilled));
    assert_eq!(Billable::from_code(3), None);
    assert_eq!(Billable::AlreadyBilled.code(), 2);
    assert_eq!(Billable::Billable.label(), "billable");
    assert_eq!(Billable::NotBillable.label(), "not billable");
    assert_eq!(Billable::AlreadyBilled.label(), "already billed");
}

#[test]
fn entry_type_codes_round_trip_and_reject_unknown() {
    assert_eq!(EntryType::from_code(1), Some(EntryType::TimeEntry));
    assert_eq!(EntryType::from_code(2), Some(EntryType::LumpSumValue));
    assert_eq!(EntryType::from_code(3), Some(EntryType::LumpSumService));
    assert_eq!(EntryType::from_code(0), None);
    assert_eq!(EntryType::from_code(4), None);
    assert_eq!(EntryType::TimeEntry.label(), "time entry");
    assert_eq!(EntryType::LumpSumValue.label(), "lump sum value");
    assert_eq!(EntryType::LumpSumService.label(), "lump sum service");
}

#[test]
fn resource_paths() {
    assert_eq!(resource_item_path::<Customer>(7), "/api/v2/customers/7");
    assert_eq!(resource_item_path::<Service>(2), "/api/v2/services/2");
    assert_eq!(resource_item_path::<Project>(31), "/api/v2/projects/31");
    assert_eq!(
        filtered_list_path::<Project, CustomersFilter>(42),
        "/api/v2/projects/?filter[customers_id]=42"
    );
    assert_eq!(stop_path(9), "/api/v2/clock/9");
    assert_eq!(clockodo_cli::clock::clock_path(), "/api/v2/clock");
}

#[test]
fn transport_identification_values() {
    assert_eq!(api_url(), "https://my.clockodo.com");
    assert_eq!(
        external_application_header(),
        "X-Clockodo-External-Application"
    );
    assert_eq!(api_user_header(), "X-ClockodoApiUser");
    assert_eq!(api_key_header(), "X-ClockodoApiKey");
    assert_eq!(
        external_application_value(),
        "clockodo-cli;clockodo-cli@zrtx.de"
    );
    assert_eq!(user_agent_value(), "clockodo-cli (clockodo-cli@zrtx.de)");
}

#[test]
fn error_messages() {
    assert_eq!(
        StartError::CustomerNotFound("X".to_string()).message(),
        "Could not find customer X"
    );
    assert_eq!(
        StartError::ServiceNotFound("Y".to_string()).message(),
        "Could not find service Y"
    );
    assert_eq!(
        StartError::ProjectNotFound("Z".to_string()).message(),
        "Could not find project Z"
    );
    assert_eq!(
        StartError::FailedToStart.message(),
        "Failed to start the stopclock (API request was successfull, but no time entry seems to be present)"
    );
    assert_eq!(
        StopError::NotRunning.message(),
        "The stopclock is not currently running"
    );
    assert_eq!(
        StopError::NotStopped.message(),
        "Couldn't stop the clock (the running time entry doesn't seem to be stopped, even though the API request was successfull)"
    );
}

#[test]
fn start_params_required_only() {
    let ps = start_params(1, 2, None, None, None);
    let pairs: Vec<(String, String)> = ps.into_iter().map(|p| (p.key, p.value)).collect();
    assert_eq!(
        pairs,
        vec![
            ("customers_id".to_string(), "1".to_string()),
            ("services_id".to_string(), "2".to_string()),
        ]
    );
}

#[test]
fn start_params_all_options_in_order() {
    let text = "fixing the build".to_string();
    let ps = start_params(10, 20, Some(true), Some(30), Some(&text));
    let pairs: Vec<(String, String)> = ps.into_iter().map(|p| (p.key, p.value)).collect();
    assert_eq!(
        pairs,
        vec![
            ("customers_id".to_string(), "10".to_string()),
            ("services_id".to_string(), "20".to_string()),
            ("billable".to_string(), "true".to_string()),
            ("projects_id".to_string(), "30".to_string()),
            ("text".to_string(), "fixing the build".to_string()),
        ]
    );
}

#[test]
fn view_duration_is_computed_from_parsed_timestamp() {
    let e = entry(1, Some(2), None);
    let now = EPOCH_2024 + 3725;
    let v = TimeEntryOutput::from_time_entry_at(e, &"Acme".to_string(), None, None, now).unwrap();
    assert_eq!(v.duration, "01:02:05");
    assert_eq!(v.description, "[empty]");
    assert_eq!(v.id, 77);
    assert_eq!(v.customer, "Acme");
}

#[test]
fn view_rejects_unparsable_timestamp() {
    let mut e = entry(1, None, None);
    e.time_since = "not a timestamp".to_string();
    let r = TimeEntryOutput::from_time_entry_at(e, &"Acme".to_string(), None, None, 0);
    assert!(r.is_err());
}

#[test]
fn view_against_wall_clock_builds() {
    let e = entry(1, Some(2), None);
    let dev = "Dev".to_string();
    let v = TimeEntryOutput::from_time_entry(e, &"Acme".to_string(), Some(&dev), None).unwrap();
    assert_eq!(v.customer, "Acme");
    assert_eq!(v.service, Some("Dev".to_string()));
    assert_eq!(v.project, None);
    assert_eq!(v.duration.matches(':').count(), 2);
}

#[test]
fn entry_json_round_trips_through_a_json_parser() {
    let mut v = view();
    v.description = "say \"hi\" \\ there".to_string();
    v.project = Some("Site".to_string());
    let doc = render_entry_json(&v);
    let parsed: serde_json::Value = serde_json::from_str(&doc).unwrap();
    assert_eq!(parsed.get("customer").unwrap().as_str(), Some("Acme"));
    assert_eq!(parsed.get("project").unwrap().as_str(), Some("Site"));
    assert_eq!(parsed.get("service").unwrap().as_str(), Some("Dev"));
    assert_eq!(parsed.get("duration").unwrap().as_str(), Some("01:02:05"));
    assert_eq!(
        parsed.get("description").unwrap().as_str(),
        Some("say \"hi\" \\ there")
    );
    assert_eq!(parsed.get("id").unwrap().as_u64(), Some(77));
    assert_eq!(parsed.get("entry_type").unwrap().as_u64(), Some(1));
    assert_eq!(parsed.get("billable").unwrap().as_u64(), Some(0));
}

#[test]
fn status_json_no_entry_exact() {
    let o = JsonOutput {
        running: false,
        time_entry: None,
    };
    assert_eq!(
        render_status_json(&o),
        "{\"running\":false,\"time_entry\":null}"
    );
}

#[test]
fn stop_json_no_entry_exact() {
    let o = StopOutput {
        stopped: true,
        time_entry: None,
    };
    assert_eq!(
        render_stop_json(&o),
        "{\"stopped\":true,\"time_entry\":null}"
    );
}

#[test]
fn error_json_escapes_message() {
    let msg = "a \"b\"".to_string();
    assert_eq!(
        render_error_json(&msg),
        "{\"error_message\":\"a \\\"b\\\"\"}"
    );
}

#[test]
fn duration_json_not_running_exact() {
    assert_eq!(
        render_duration_json(&None),
        "{\"running\": false, \"duration\": null}"
    );
}

#[test]
fn duration_json_running_exact() {
    assert_eq!(
        render_duration_json(&Some("01:02:05".to_string())),
        "{\"duration\": \"01:02:05\"}"
    );
}

#[test]
fn duration_json_documents_parse() {
    let none: serde_json::Value = serde_json::from_str(&render_duration_json(&None)).unwrap();
    assert_eq!(none.get("running").unwrap().as_bool(), Some(false));
    assert!(none.get("duration").unwrap().is_null());
    let some: serde_json::Value =
        serde_json::from_str(&render_duration_json(&Some("25:00:00".to_string()))).unwrap();
    assert_eq!(some.get("duration").unwrap().as_str(), Some("25:00:00"));
    assert_eq!(some.get("running"), None);
}

#[test]
fn entry_text_report_lines() {
    let v = view();
    let text = render_entry_text(&v);
    assert_eq!(
        text,
        "ID:\t\t77\nCustomer:\tAcme\nEntry type:\ttime entry\nService:\tDev\nBillable:\tnot billable\nDescription:\t[empty]\nTime inserted:\t2024-01-01 01:00:00\nTime started:\t2024-01-01 01:00:00\nDuration:\t01:02:05\n"
    );
    assert!(!text.contains("Project:"));
}

#[test]
fn service_line_variants() {
    assert_eq!(service_line(&service(2, "Dev")), "Dev");
    let s = Service {
        id: 3,
        name: "Ops".to_string(),
        active: false,
        note: Some("on call".to_string()),
    };
    assert_eq!(service_line(&s), "Ops (inactive) \t\tNote: on call");
}

#[test]
fn project_names_in_order() {
    let ps = vec![
        Project {
            id: 1,
            name: "A".to_string(),
            customers_id: 1,
        },
        Project {
            id: 2,
            name: "B".to_string(),
            customers_id: 1,
        },
    ];
    assert_eq!(
        project_names(ps),
        vec!["A".to_string(), "B".to_string()]
    );
}

#[test]
fn config_holds_two_secrets() {
    let c = Config {
        api_user: "u".to_string(),
        api_key: "k".to_string(),
    };
    assert_eq!(c.api_user, "u");
    assert_eq!(c.api_key, "k");
}

#[test]
fn start_scenario_end_to_end() {
    let customers = vec![customer(1, "Acme")];
    let services = vec![service(2, "Dev")];
    let c = resolve_customer(customers, &"Acme".to_string()).unwrap();
    let s = resolve_service(services, &"Dev".to_string()).unwrap();
    assert_eq!((c.id, s.id), (1, 2));

    let ps = start_params(c.id, s.id, None, None, None);
    let pairs: Vec<(String, String)> = ps.into_iter().map(|p| (p.key, p.value)).collect();
    assert_eq!(
        pairs,
        vec![
            ("customers_id".to_string(), "1".to_string()),
            ("services_id".to_string(), "2".to_string()),
        ]
    );

    let response = StatusResponse {
        running: Some(entry(1, Some(2), None)),
    };
    let started = start_response_entry(response).unwrap();
    let v = TimeEntryOutput::from_time_entry_at(
        started,
        &c.name,
        Some(&s.name),
        None,
        EPOCH_2024 + 60,
    )
    .unwrap();
    assert_eq!(v.customer, "Acme");
    assert_eq!(v.service, Some("Dev".to_string()));
    assert_eq!(v.project, None);
    assert_eq!(v.duration, "00:01:00");
    let text = render_entry_text(&v);
    assert!(text.contains("Customer:\tAcme"));
    assert!(text.contains("Service:\tDev"));
    assert!(!text.contains("Project:"));
}
