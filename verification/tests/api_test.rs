use desec_client::{
    DeSecClient, DeSecError, HttpResponse, Json, Method, Request, ResourceRecordSet,
};

const API: &str = "https://desec.io/api/v1";

fn client() -> DeSecClient {
    DeSecClient::new(String::from("secret-token")).unwrap()
}

fn response(status: u16, body: &str) -> Result<HttpResponse, String> {
    Ok(HttpResponse { status, headers: Vec::new(), body: String::from(body) })
}

/// A server that holds at most one domain and one record set, and answers
/// as the provider does.
struct Zone {
    domain: Option<String>,
    rrset: Option<serde_json::Map<String, serde_json::Value>>,
}

fn serve(zone: &mut Zone, request: &Request) -> Result<HttpResponse, String> {
    let path = request.url.strip_prefix(API).unwrap();
    let parts: Vec<&str> = path.split('/').filter(|part| !part.is_empty()).collect();
    let body = request
        .body
        .as_ref()
        .map(|text| serde_json::from_str::<serde_json::Value>(text).unwrap());
    match (request.method, parts.as_slice()) {
        (Method::Get, ["domains", name]) => match &zone.domain {
            Some(held) if held == name => {
                response(200, &format!("{{\"name\":\"{}\",\"minimum_ttl\":3600}}", held))
            }
            _ => response(404, "{\"detail\":\"Not found.\"}"),
        },
        (Method::Post, ["domains"]) => {
            let name = body.unwrap()["name"].as_str().unwrap().to_string();
            if zone.domain.as_ref() == Some(&name) {
                return response(400, "{\"name\":[\"This domain name conflicts with an existing zone.\"]}");
            }
            zone.domain = Some(name.clone());
            response(201, &format!("{{\"name\":\"{}\",\"minimum_ttl\":3600,\"keys\":[]}}", name))
        }
        (Method::Delete, ["domains", name]) => match &zone.domain {
            Some(held) if held == name => {
                zone.domain = None;
                response(204, "")
            }
            _ => response(404, "{\"detail\":\"Not found.\"}"),
        },
        (Method::Post, ["domains", _, "rrsets"]) => {
            let mut set = body.unwrap().as_object().unwrap().clone();
            set.insert(String::from("created"), serde_json::Value::from("2024-01-01T00:00:00Z"));
            let text = serde_json::to_string(&set).unwrap();
            zone.rrset = Some(set);
            response(201, &text)
        }
        (Method::Get, ["domains", _, "rrsets", _, _]) => match &zone.rrset {
            Some(set) => response(200, &serde_json::to_string(set).unwrap()),
            None => response(404, "{\"detail\":\"Not found.\"}"),
        },
        (Method::Patch, ["domains", _, "rrsets", _, _]) => match &mut zone.rrset {
            Some(set) => {
                for (key, value) in body.unwrap().as_object().unwrap() {
                    set.insert(key.clone(), value.clone());
                }
                response(200, &serde_json::to_string(set).unwrap())
            }
            None => response(404, "{\"detail\":\"Not found.\"}"),
        },
        (Method::Delete, ["domains", _, "rrsets", _, _]) => {
            zone.rrset = None;
            response(204, "")
        }
        _ => response(405, ""),
    }
}

#[test]
fn create_delete_domain() {
    let client = client();
    let mut zone = Zone { domain: None, rrset: None };
    let domain_create = "new.example.com";

    match DeSecClient::get_domain_reply(serve(&mut zone, &client.get_domain(domain_create))) {
        Ok(_) => {
            let res =
                DeSecClient::delete_domain_reply(serve(&mut zone, &client.delete_domain(domain_create)));
            assert!(res.is_ok(), "Failed to delete existing domain");
        }
        Err(DeSecError::NotFound) => {}
        Err(_) => panic!("Could not check if domain already exists"),
    };

    let result =
        DeSecClient::create_domain_reply(serve(&mut zone, &client.create_domain(domain_create).unwrap()));
    assert!(result.is_ok(), "Failed to create domain");
    assert_eq!(result.unwrap().name, "new.example.com");

    let res = DeSecClient::delete_domain_reply(serve(&mut zone, &client.delete_domain(domain_create)));
    assert!(res.is_ok(), "Failed to delete previously created domain");
    assert_eq!(
        DeSecClient::delete_domain_reply(serve(&mut zone, &client.delete_domain(domain_create))),
        Err(DeSecError::NotFound)
    );
}

#[test]
fn create_domain_that_exists_is_a_bad_request() {
    let client = client();
    let mut zone = Zone { domain: Some(String::from("example.com")), rrset: None };
    let result =
        DeSecClient::create_domain_reply(serve(&mut zone, &client.create_domain("example.com").unwrap()));
    assert_eq!(
        result,
        Err(DeSecError::BadRequest(String::from(
            "{\"name\":[\"This domain name conflicts with an existing zone.\"]}"
        )))
    );
}

#[test]
fn create_update_delete_rrset() {
    let client = client();
    let mut zone = Zone { domain: Some(String::from("example.com")), rrset: None };
    let domain = String::from("example.com");
    let subname = String::from("www");
    let rrset_type = String::from("A");
    let records = vec![String::from("8.8.8.8")];

    match DeSecClient::get_rrset_reply(serve(
        &mut zone,
        &client.get_rrset(&domain, &subname, &rrset_type),
    )) {
        Ok(_) => {
            let res = DeSecClient::delete_rrset_reply(serve(
                &mut zone,
                &client.delete_rrset(&domain, &subname, &rrset_type),
            ));
            assert!(res.is_ok(), "Failed to delete existing rrset");
        }
        Err(DeSecError::NotFound) => {}
        Err(_) => panic!("Could not check if rrset already exists"),
    };

    let request = client
        .create_rrset(domain.clone(), subname.clone(), rrset_type.clone(), records.clone(), 3600)
        .unwrap();
    let result = DeSecClient::create_rrset_reply(serve(&mut zone, &request));
    assert!(result.is_ok(), "Failed to create rrset");
    let created = result.unwrap();
    assert_eq!(created.domain, Some(domain.clone()));
    assert_eq!(created.records, Some(records.clone()));

    let result = DeSecClient::get_rrset_reply(serve(
        &mut zone,
        &client.get_rrset(&domain, &subname, &rrset_type),
    ));
    assert!(result.is_ok(), "Failed to get new rrset");
    let mut rrset = result.unwrap();
    assert_eq!(rrset.records, Some(records));

    rrset.ttl = Some(3650);
    rrset.records = Some(vec![String::from("8.8.4.4")]);
    let request = client.update_rrset(&domain, &subname, &rrset_type, &rrset).unwrap();
    let rrset = DeSecClient::update_rrset_reply(serve(&mut zone, &request));
    assert!(rrset.is_ok(), "Failed to update rrset");

    let fetched = DeSecClient::get_rrset_reply(serve(
        &mut zone,
        &client.get_rrset(&domain, &subname, &rrset_type),
    ))
    .unwrap();
    assert_eq!(fetched.ttl, Some(3650));
    assert_eq!(fetched.records, Some(vec![String::from("8.8.4.4")]));

    let result = DeSecClient::delete_rrset_reply(serve(
        &mut zone,
        &client.delete_rrset(&domain, &subname, &rrset_type),
    ));
    assert!(result.is_ok(), "Failed to delete rrset");
    assert_eq!(
        DeSecClient::get_rrset_reply(serve(
            &mut zone,
            &client.get_rrset(&domain, &subname, &rrset_type)
        )),
        Err(DeSecError::NotFound)
    );
}

#[test]
fn partial_update_leaves_the_other_fields_alone() {
    let client = client();
    let mut zone = Zone { domain: Some(String::from("example.com")), rrset: None };
    let request = client
        .create_rrset(
            String::from("example.com"),
            String::from("www"),
            String::from("A"),
            vec![String::from("8.8.8.8")],
            3600,
        )
        .unwrap();
    DeSecClient::create_rrset_reply(serve(&mut zone, &request)).unwrap();

    let patch = ResourceRecordSet {
        records: Some(vec![String::from("8.8.4.4")]),
        ttl: Some(3650),
        ..ResourceRecordSet::default()
    };
    let request = client.update_rrset("example.com", "www", "A", &patch).unwrap();
    assert_eq!(request.body, Some(String::from("{\"records\":[\"8.8.4.4\"],\"ttl\":3650}")));
    DeSecClient::update_rrset_reply(serve(&mut zone, &request)).unwrap();

    let fetched =
        DeSecClient::get_rrset_reply(serve(&mut zone, &client.get_rrset("example.com", "www", "A")))
            .unwrap();
    assert_eq!(fetched.domain, Some(String::from("example.com")));
    assert_eq!(fetched.subname, Some(String::from("www")));
    assert_eq!(fetched.rrset_type, Some(String::from("A")));
    assert_eq!(fetched.records, Some(vec![String::from("8.8.4.4")]));
    assert_eq!(fetched.ttl, Some(3650));
}

#[test]
fn get_rrsets() {
    let client = client();
    let request = client.get_rrsets("example.com");
    assert_eq!(request.url, "https://desec.io/api/v1/domains/example.com/rrsets/");
    let body = "[{\"domain\":\"example.com\",\"subname\":\"\",\"name\":\"example.com.\",\
                \"type\":\"NS\",\"records\":[\"ns1.desec.io.\",\"ns2.desec.org.\"],\"ttl\":3600},\
                {\"domain\":\"example.com\",\"subname\":\"www\",\"name\":\"www.example.com.\",\
                \"type\":\"A\",\"records\":[\"8.8.8.8\"],\"ttl\":3600}]";
    let rrsets = DeSecClient::get_rrsets_reply(response(200, body));
    assert!(rrsets.is_ok(), "Failed to get rrsets");
    let rrsets = rrsets.unwrap();
    assert_eq!(rrsets.len(), 2);
    let rrset_type = "NS";
    let empty_string = String::new();
    assert!(
        rrsets
            .iter()
            .filter(|rrset| rrset.rrset_type.as_ref().unwrap_or(&empty_string) == rrset_type)
            .count()
            > 0
    );
    assert_eq!(rrsets[0].subname, Some(String::new()));
}

#[test]
fn token_with_a_control_character_builds_no_client() {
    let made = DeSecClient::new(String::from("bad\ntoken"));
    assert_eq!(
        made.err(),
        Some(DeSecError::ClientBuilder(String::from("failed to parse header value")))
    );
}

#[test]
fn bulk_create_with_a_malformed_item_is_rejected_item_by_item() {
    let client = client();
    let good = ResourceRecordSet {
        subname: Some(String::from("www")),
        rrset_type: Some(String::from("A")),
        records: Some(vec![String::from("8.8.8.8")]),
        ttl: Some(3600),
        ..ResourceRecordSet::default()
    };
    let malformed = ResourceRecordSet {
        subname: Some(String::from("mail")),
        rrset_type: Some(String::from("A")),
        records: Some(vec![String::from("not an address")]),
        ttl: Some(3600),
        ..ResourceRecordSet::default()
    };
    let request =
        client.create_rrset_bulk(String::from("example.com"), vec![good, malformed]).unwrap();
    assert!(request.method == Method::Post);
    assert_eq!(request.url, "https://desec.io/api/v1/domains/example.com/rrsets/");
    assert_eq!(
        request.body,
        Some(String::from(
            "[{\"subname\":\"www\",\"type\":\"A\",\"records\":[\"8.8.8.8\"],\"ttl\":3600},\
             {\"subname\":\"mail\",\"type\":\"A\",\"records\":[\"not an address\"],\"ttl\":3600}]"
        ))
    );

    let rejection = "[{},{\"records\":[\"Record content malformed.\"]}]";
    let outcome = DeSecClient::create_rrset_bulk_reply(response(400, rejection));
    let detail = match outcome {
        Err(DeSecError::HttpBulk(Json::Array(items))) => items,
        other => panic!("not a bulk rejection: {:?}", other),
    };
    assert_eq!(detail.len(), 2);
    assert_eq!(detail[0], Json::Object(Vec::new()));
    let complaints: Vec<&Json> =
        detail.iter().filter(|item| **item != Json::Object(Vec::new())).collect();
    assert_eq!(complaints.len(), 1);
    assert_eq!(
        complaints[0].get("records"),
        Some(&Json::Array(vec![Json::String(String::from("Record content malformed."))]))
    );
}
