use swss_common::{KeyOpFieldValues, SonicDbTable};

struct MyStruct {
    id1: String,
    id2: String,
    attr1: Option<String>,
    attr2: Option<String>,
}

impl SonicDbTable for MyStruct {
    fn key_separator() -> char {
        ':'
    }

    fn table_name() -> &'static str {
        "MY_STRUCT"
    }

    fn db_name() -> &'static str {
        "db1"
    }

    fn is_dpu() -> bool {
        false
    }
}

#[test]
fn test_attributes() {
    let obj = MyStruct {
        id1: "id1".to_string(),
        id2: "id2".to_string(),
        attr1: Some("attr1".to_string()),
        attr2: Some("attr2".to_string()),
    };
    assert_eq!(obj.id1, "id1");
    assert_eq!(obj.id2, "id2");
    assert_eq!(obj.attr1.as_deref(), Some("attr1"));
    assert_eq!(obj.attr2.as_deref(), Some("attr2"));

    assert!(MyStruct::key_separator() == ':');
    assert!(MyStruct::table_name() == "MY_STRUCT");
    assert!(MyStruct::db_name() == "db1");
}

#[test]
fn sonic_db_table_defaults() {
    assert!(!MyStruct::is_proto());
    assert!(!MyStruct::is_dpu());
    let mut kfv = KeyOpFieldValues::del("k".to_string());
    MyStruct::convert_pb_to_json(&mut kfv);
    assert_eq!(kfv.key, "k");
}
