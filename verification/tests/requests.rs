use desec_client::{DeSecClient, DeSecError, Json, Method, Request, ResourceRecordSet};

fn client() -> DeSecClient {
    DeSecClient::new(String::from("secret-token")).unwrap()
}

fn header(name: &str, value: &str) -> (String, String) {
    (String::from(name), String::from(value))
}

fn assert_plain(request: &Request, method: Method, url: &str) {
    assert!(request.method == method);
    assert_eq!(request.url, url);
    assert_eq!(
        request.headers,
        vec![
            header("Authorization", "Token secret-token"),
            header("User-Agent", "rust-desec-client")
        ]
    );
    assert_eq!(request.body, None);
}

fn assert_write(request: &Request, method: Method, url: &str, body: &str) {
    assert!(request.method == method);
    assert_eq!(request.url, url);
    assert_eq!(
        request.headers,
        vec![
            header("Authorization", "Token secret-token"),
            header("User-Agent", "rust-desec-client"),
            header("Content-Type", "application/json")
        ]
    );
    assert_eq!(request.body, Some(String::from(body)));
}

#[test]
fn the_client_points_at_the_provider() {
    let client = client();
    assert_eq!(client.api_url(), "https://desec.io/api/v1");
    assert_eq!(client.authorization(), "Token secret-token");
    assert_eq!(DeSecClient::user_agent(), "rust-desec-client");
}

#[test]
fn the_api_url_can_be_replaced() {
    let client = client().with_api_url(String::from("http://127.0.0.1:8080/api"));
    assert_eq!(client.api_url(), "http://127.0.0.1:8080/api");
    assert_eq!(client.authorization(), "Token secret-token");
    assert_plain(&client.get_domains(), Method::Get, "http://127.0.0.1:8080/api/domains/");
}

#[test]
fn account_request() {
    assert_plain(
        &client().get_account_info(),
        Method::Get,
        "https://desec.io/api/v1/auth/account/",
    );
}

#[test]
fn domain_requests() {
    let client = client();
    assert_write(
        &client.create_domain("example.com").unwrap(),
        Method::Post,
        "https://desec.io/api/v1/domains/",
        "{\"name\":\"example.com\"}",
    );
    assert_plain(&client.get_domains(), Method::Get, "https://desec.io/api/v1/domains/");
    assert_plain(
        &client.get_domain("example.com"),
        Method::Get,
        "https://desec.io/api/v1/domains/example.com/",
    );
    assert_plain(
        &client.delete_domain("example.com"),
        Method::Delete,
        "https://desec.io/api/v1/domains/example.com/",
    );
    assert_plain(
        &client.get_zonefile("example.com"),
        Method::Get,
        "https://desec.io/api/v1/domains/example.com/zonefile/",
    );
}

fn assert_asks_for(name: &str, body: &str) {
    let request = client().create_domain(name).unwrap();
    assert_write(&request, Method::Post, "https://desec.io/api/v1/domains/", body);
    let sent = request.body.unwrap();
    let read = serde_json::from_str::<serde_json::Value>(&sent).unwrap();
    let object = read.as_object().unwrap();
    assert_eq!(object.len(), 1);
    assert_eq!(object.get("name").and_then(|value| value.as_str()), Some(name));
}

#[test]
fn the_name_of_a_new_domain_is_written_as_a_json_string() {
    assert_asks_for("a\"b", "{\"name\":\"a\\\"b\"}");
    assert_asks_for("", "{\"name\":\"\"}");
    assert_asks_for("back\\slash", "{\"name\":\"back\\\\slash\"}");
    assert_asks_for("line\nbreak\ttab", "{\"name\":\"line\\nbreak\\ttab\"}");
    assert_asks_for("m\u{fc}nchen.example", "{\"name\":\"m\u{fc}nchen.example\"}");
}

#[test]
fn the_name_of_a_new_domain_adds_no_member_of_its_own() {
    assert_asks_for("x\", \"y\": \"z", "{\"name\":\"x\\\", \\\"y\\\": \\\"z\"}");
    assert_asks_for("\"}", "{\"name\":\"\\\"}\"}");
}

#[test]
fn rrset_requests() {
    let client = client();
    assert_plain(
        &client.get_rrsets("example.com"),
        Method::Get,
        "https://desec.io/api/v1/domains/example.com/rrsets/",
    );
    assert_plain(
        &client.get_rrset("example.com", "www", "A"),
        Method::Get,
        "https://desec.io/api/v1/domains/example.com/rrsets/www/A/",
    );
    assert_plain(
        &client.delete_rrset("example.com", "www", "A"),
        Method::Delete,
        "https://desec.io/api/v1/domains/example.com/rrsets/www/A/",
    );
    assert_plain(
        &client.get_rrset("example.com", "", "NS"),
        Method::Get,
        "https://desec.io/api/v1/domains/example.com/rrsets//NS/",
    );
}

#[test]
fn create_rrset_request() {
    let request = client()
        .create_rrset(
            String::from("example.com"),
            String::from("www"),
            String::from("A"),
            vec![String::from("8.8.8.8")],
            3600,
        )
        .unwrap();
    assert_write(
        &request,
        Method::Post,
        "https://desec.io/api/v1/domains/example.com/rrsets/",
        "{\"domain\":\"example.com\",\"subname\":\"www\",\"type\":\"A\",\
         \"records\":[\"8.8.8.8\"],\"ttl\":3600}",
    );
}

#[test]
fn create_rrset_escapes_what_it_writes() {
    let request = client()
        .create_rrset(
            String::from("example.com"),
            String::from("_dmarc"),
            String::from("TXT"),
            vec![String::from("\"v=DMARC1; p=none\""), String::from("tab\there")],
            u64::MAX,
        )
        .unwrap();
    assert_eq!(
        request.body,
        Some(String::from(
            "{\"domain\":\"example.com\",\"subname\":\"_dmarc\",\"type\":\"TXT\",\
             \"records\":[\"\\\"v=DMARC1; p=none\\\"\",\"tab\\there\"],\
             \"ttl\":18446744073709551615}"
        ))
    );
}

#[test]
fn update_rrset_request_holds_only_what_is_set() {
    let client = client();
    let patch = ResourceRecordSet { ttl: Some(3650), ..ResourceRecordSet::default() };
    let request = client.update_rrset("example.com", "www", "A", &patch).unwrap();
    assert_write(
        &request,
        Method::Patch,
        "https://desec.io/api/v1/domains/example.com/rrsets/www/A/",
        "{\"ttl\":3650}",
    );
    let nothing = ResourceRecordSet::default();
    let request = client.update_rrset("example.com", "www", "A", &nothing).unwrap();
    assert_eq!(request.body, Some(String::from("{}")));
}

#[test]
fn bulk_requests() {
    let client = client();
    let sets = vec![
        ResourceRecordSet {
            subname: Some(String::from("www")),
            rrset_type: Some(String::from("A")),
            ttl: Some(3600),
            records: Some(vec![String::from("1.2.3.4")]),
            ..ResourceRecordSet::default()
        },
        ResourceRecordSet {
            subname: Some(String::from("www")),
            rrset_type: Some(String::from("AAAA")),
            records: Some(Vec::new()),
            ..ResourceRecordSet::default()
        },
    ];
    let body = "[{\"subname\":\"www\",\"type\":\"A\",\"records\":[\"1.2.3.4\"],\"ttl\":3600},\
                {\"subname\":\"www\",\"type\":\"AAAA\",\"records\":[]}]";
    let request = client.create_rrset_bulk(String::from("example.com"), sets.clone()).unwrap();
    assert_write(
        &request,
        Method::Post,
        "https://desec.io/api/v1/domains/example.com/rrsets/",
        body,
    );
    let request = client.update_rrset_bulk(String::from("example.com"), sets).unwrap();
    assert_write(
        &request,
        Method::Patch,
        "https://desec.io/api/v1/domains/example.com/rrsets/",
        body,
    );
    let request = client.create_rrset_bulk(String::from("example.com"), Vec::new()).unwrap();
    assert_eq!(request.body, Some(String::from("[]")));
}

#[test]
fn a_document_that_cannot_be_written_is_a_parser_error() {
    let broken = Json::Array(vec![Json::Number(String::from("1e"))]);
    let expected = serde_json::from_str::<serde_json::Number>("1e").unwrap_err().to_string();
    assert_eq!(desec_client::client::write_json(&broken), Err(DeSecError::Parser(expected)));
}
