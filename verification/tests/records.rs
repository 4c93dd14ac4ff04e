use desec_client::client::write_json;
use desec_client::reply::read_json;
use desec_client::{
    AccountInformation, DNSSECKeyInfo, Domain, Json, Member, ResourceRecordSet,
};

fn member(key: &str, value: Json) -> Member {
    Member { key: String::from(key), value }
}

fn text(value: &str) -> Json {
    Json::String(String::from(value))
}

#[test]
fn a_record_set_is_written_field_by_field() {
    let set = ResourceRecordSet {
        created: Some(String::from("c")),
        domain: Some(String::from("d")),
        subname: Some(String::from("s")),
        name: Some(String::from("n")),
        rrset_type: Some(String::from("t")),
        records: Some(vec![String::from("r1"), String::from("r2")]),
        ttl: Some(7),
        touched: Some(String::from("x")),
    };
    assert_eq!(
        set.to_json(),
        Json::Object(vec![
            member("created", text("c")),
            member("domain", text("d")),
            member("subname", text("s")),
            member("name", text("n")),
            member("type", text("t")),
            member("records", Json::Array(vec![text("r1"), text("r2")])),
            member("ttl", Json::Unsigned(7)),
            member("touched", text("x")),
        ])
    );
    assert_eq!(ResourceRecordSet::from_json(&set.to_json()), Some(set));
}

#[test]
fn fields_without_a_value_are_left_out() {
    assert_eq!(ResourceRecordSet::default().to_json(), Json::Object(Vec::new()));
    assert_eq!(DNSSECKeyInfo::default().to_json(), Json::Object(Vec::new()));
    assert_eq!(Domain::default().to_json(), Json::Object(vec![member("name", text(""))]));
    let set = ResourceRecordSet {
        subname: Some(String::new()),
        records: Some(Vec::new()),
        ..ResourceRecordSet::default()
    };
    assert_eq!(write_json(&set.to_json()), Ok(String::from("{\"subname\":\"\",\"records\":[]}")));
}

#[test]
fn what_was_read_is_written_without_the_fields_it_lacked() {
    let read = read_json("{\"type\":\"A\",\"name\":null,\"ttl\":60,\"comment\":\"x\"}").unwrap();
    let set = ResourceRecordSet::from_json(&read).unwrap();
    assert_eq!(
        set,
        ResourceRecordSet {
            rrset_type: Some(String::from("A")),
            ttl: Some(60),
            ..ResourceRecordSet::default()
        }
    );
    let written = write_json(&set.to_json()).unwrap();
    assert_eq!(written, "{\"type\":\"A\",\"ttl\":60}");
    assert!(!written.contains("null"));
    let again = serde_json::from_str::<serde_json::Value>(&written).unwrap();
    assert_eq!(again.as_object().unwrap().len(), 2);

    let read = read_json("{\"name\":\"example.com\",\"keys\":null,\"zonefile\":null}").unwrap();
    let domain = Domain::from_json(&read).unwrap();
    assert_eq!(write_json(&domain.to_json()), Ok(String::from("{\"name\":\"example.com\"}")));
}

#[test]
fn a_domain_is_written_and_read_back() {
    let domain = Domain {
        created: Some(String::from("2024-01-01T00:00:00Z")),
        keys: Some(vec![
            DNSSECKeyInfo {
                dnskey: Some(String::from("257 3 13 abc=")),
                ds: Some(vec![String::from("6006 13 2 f3")]),
                keyflags: Some(257),
                keytype: Some(String::from("csk")),
                managed: Some(true),
            },
            DNSSECKeyInfo::default(),
        ]),
        minimum_ttl: Some(3600),
        name: String::from("example.com"),
        published: Some(String::from("2024-01-01T00:00:02Z")),
        touched: None,
        zonefile: Some(String::from("example.com. 3600 IN NS ns1.desec.io.\n")),
    };
    let written = write_json(&domain.to_json()).unwrap();
    assert_eq!(
        written,
        "{\"created\":\"2024-01-01T00:00:00Z\",\"keys\":[{\"dnskey\":\"257 3 13 abc=\",\
         \"ds\":[\"6006 13 2 f3\"],\"flags\":257,\"keytype\":\"csk\",\"managed\":true},{}],\
         \"minimum_ttl\":3600,\"name\":\"example.com\",\"published\":\"2024-01-01T00:00:02Z\",\
         \"zonefile\":\"example.com. 3600 IN NS ns1.desec.io.\\n\"}"
    );
    assert_eq!(Domain::from_json(&read_json(&written).unwrap()), Some(domain));
}

#[test]
fn a_domain_needs_its_name() {
    assert_eq!(Domain::from_json(&read_json("{}").unwrap()), None);
    assert_eq!(Domain::from_json(&read_json("{\"name\":null}").unwrap()), None);
    assert_eq!(Domain::from_json(&read_json("{\"name\":[]}").unwrap()), None);
    assert_eq!(Domain::from_json(&read_json("\"example.com\"").unwrap()), None);
    assert_eq!(
        Domain::from_json(&read_json("{\"name\":\"example.com\"}").unwrap()),
        Some(Domain { name: String::from("example.com"), ..Domain::default() })
    );
}

#[test]
fn small_numbers_have_to_fit() {
    let key = |body: &str| DNSSECKeyInfo::from_json(&read_json(body).unwrap());
    assert_eq!(
        key("{\"flags\":65535}"),
        Some(DNSSECKeyInfo { keyflags: Some(65535), ..DNSSECKeyInfo::default() })
    );
    assert_eq!(
        key("{\"flags\":0}"),
        Some(DNSSECKeyInfo { keyflags: Some(0), ..DNSSECKeyInfo::default() })
    );
    assert_eq!(key("{\"flags\":65536}"), None);
    assert_eq!(key("{\"flags\":-1}"), None);
    assert_eq!(key("{\"flags\":\"257\"}"), None);
    assert_eq!(key("{\"managed\":1}"), None);
    assert_eq!(key("{\"ds\":[null]}"), None);
    assert_eq!(key("{\"keytype\":false}"), None);
    let domain = |body: &str| Domain::from_json(&read_json(body).unwrap());
    assert_eq!(domain("{\"name\":\"a\",\"minimum_ttl\":70000}"), None);
    assert_eq!(domain("{\"name\":\"a\",\"keys\":{}}"), None);
    assert_eq!(domain("{\"name\":\"a\",\"keys\":[{\"flags\":65536}]}"), None);
    let set = |body: &str| ResourceRecordSet::from_json(&read_json(body).unwrap());
    assert_eq!(
        set("{\"ttl\":18446744073709551615}"),
        Some(ResourceRecordSet { ttl: Some(u64::MAX), ..ResourceRecordSet::default() })
    );
    assert_eq!(set("{\"ttl\":18446744073709551616}"), None);
}

#[test]
fn the_last_of_two_members_of_one_name_counts() {
    let twice = Json::Object(vec![
        member("ttl", Json::Unsigned(1)),
        member("type", text("A")),
        member("ttl", Json::Unsigned(2)),
    ]);
    assert_eq!(twice.get("ttl"), Some(&Json::Unsigned(2)));
    assert_eq!(twice.get("type"), Some(&text("A")));
    assert_eq!(twice.get("name"), None);
    assert_eq!(Json::Array(vec![Json::Null]).get("ttl"), None);
    assert_eq!(
        ResourceRecordSet::from_json(&twice),
        Some(ResourceRecordSet {
            rrset_type: Some(String::from("A")),
            ttl: Some(2),
            ..ResourceRecordSet::default()
        })
    );
}

#[test]
fn an_account_is_written_and_read_back() {
    let account = AccountInformation {
        created: String::from("2019-10-16T18:09:17.715702Z"),
        email: String::from("youremailaddress@example.com"),
        id: String::from("9ab16e5c-805d-4ab1-9030-af3f5a541d47"),
        limit_domains: 15,
        outreach_preference: false,
    };
    let written = write_json(&account.to_json()).unwrap();
    assert_eq!(
        written,
        "{\"created\":\"2019-10-16T18:09:17.715702Z\",\"email\":\"youremailaddress@example.com\",\
         \"id\":\"9ab16e5c-805d-4ab1-9030-af3f5a541d47\",\"limit_domains\":15,\
         \"outreach_preference\":false}"
    );
    assert_eq!(AccountInformation::from_json(&read_json(&written).unwrap()), Some(account));
    let lacking = "{\"created\":\"c\",\"email\":\"e\",\"id\":\"i\",\"limit_domains\":null,\
                   \"outreach_preference\":true}";
    assert_eq!(AccountInformation::from_json(&read_json(lacking).unwrap()), None);
}

#[test]
fn lists_of_record_sets() {
    let sets = vec![
        ResourceRecordSet { ttl: Some(1), ..ResourceRecordSet::default() },
        ResourceRecordSet::default(),
    ];
    let json = ResourceRecordSet::list_to_json(&sets);
    assert_eq!(
        json,
        Json::Array(vec![
            Json::Object(vec![member("ttl", Json::Unsigned(1))]),
            Json::Object(Vec::new())
        ])
    );
    assert_eq!(ResourceRecordSet::list_from_json(&json), Some(sets));
    assert_eq!(ResourceRecordSet::list_from_json(&Json::Object(Vec::new())), None);
    assert_eq!(ResourceRecordSet::list_from_json(&Json::Array(vec![Json::Null])), None);
}

#[test]
fn documents_are_read_as_serde_json_reads_them() {
    assert_eq!(read_json("null"), Ok(Json::Null));
    assert_eq!(read_json(" true "), Ok(Json::Bool(true)));
    assert_eq!(read_json("0"), Ok(Json::Unsigned(0)));
    assert_eq!(read_json("-1"), Ok(Json::Number(String::from("-1"))));
    assert_eq!(read_json("1.5"), Ok(Json::Number(String::from("1.5"))));
    assert_eq!(read_json("\"a\\u00e9\\n\""), Ok(text("a\u{e9}\n")));
    assert_eq!(
        read_json("{\"b\":[1,{\"c\":null}],\"a\":\"x\"}"),
        Ok(Json::Object(vec![
            member(
                "b",
                Json::Array(vec![Json::Unsigned(1), Json::Object(vec![member("c", Json::Null)])])
            ),
            member("a", text("x")),
        ]))
    );
    assert!(read_json("{\"a\":1,}").is_err());
    assert!(read_json("").is_err());
    assert!(read_json("1 2").is_err());
}

#[test]
fn documents_are_written_as_serde_json_writes_them() {
    assert_eq!(write_json(&Json::Null), Ok(String::from("null")));
    assert_eq!(write_json(&Json::Bool(false)), Ok(String::from("false")));
    assert_eq!(write_json(&Json::Unsigned(42)), Ok(String::from("42")));
    assert_eq!(write_json(&Json::Number(String::from("-7"))), Ok(String::from("-7")));
    assert_eq!(write_json(&Json::Number(String::from("2.5"))), Ok(String::from("2.5")));
    assert_eq!(write_json(&text("a\"b\\c\n")), Ok(String::from("\"a\\\"b\\\\c\\n\"")));
    let nested = Json::Object(vec![
        member("z", Json::Array(vec![Json::Unsigned(1), Json::Null])),
        member("a", Json::Object(Vec::new())),
    ]);
    assert_eq!(write_json(&nested), Ok(String::from("{\"z\":[1,null],\"a\":{}}")));
    assert_eq!(read_json(&write_json(&nested).unwrap()), Ok(nested.clone()));
    assert_eq!(nested.duplicate(), nested);
    assert!(write_json(&Json::Number(String::from("one"))).is_err());
}
