use view_service::errors::ErrorCode;
use view_service::service::belongings_statement;
use view_service::service::create_view_statement;
use view_service::service::delete_view_statement;
use view_service::service::read_view_statement;
use view_service::service::update_view_statement;
use view_service::service::ViewStore;
use view_service::builder::SqlValue;
use view_service::view::CreateViewParams;
use view_service::view::QueryViewParams;
use view_service::view::UpdateViewParams;

const PARENT: &str = "1d4e8f0a-2b3c-4d5e-8f9a-0b1c2d3e4f5a";
const ID_A: &str = "aaaa1111-2222-4333-8444-555566667777";
const ID_B: &str = "bbbb1111-2222-4333-8444-555566667777";
const ID_C: &str = "cccc1111-2222-4333-8444-555566667777";
const ID_D: &str = "dddd1111-2222-4333-8444-555566667777";
const OTHER: &str = "9f8e7d6c-5b4a-4291-8170-6f5e4d3c2b1a";

fn create_params(name: &str, parent: &str) -> CreateViewParams {
    CreateViewParams {
        name: name.to_string(),
        belong_to_id: parent.to_string(),
        thumbnail: String::new(),
        desc: String::new(),
        view_type: 0,
    }
}

#[test]
fn create_then_read_returns_equal_view() {
    let mut store = ViewStore::new();
    let created = store
        .create_view_at(&create_params("Notes", PARENT), ID_A.to_string(), 100)
        .unwrap();
    assert_eq!(created.id, ID_A);
    assert_eq!(created.belong_to_id, PARENT);
    assert_eq!(created.name, "Notes");
    assert_eq!(created.desc, "");
    assert_eq!(created.version, 0);
    assert!(created.belongings.is_empty());

    let read = store
        .read_view(&QueryViewParams { view_id: ID_A.to_string(), read_belongings: false })
        .unwrap();
    assert_eq!(read, created);
}

#[test]
fn create_assigns_both_timestamps_and_clears_trash() {
    let mut store = ViewStore::new();
    store
        .create_view_at(&create_params("Notes", PARENT), ID_A.to_string(), 123)
        .unwrap();
    assert_eq!(store.rows.len(), 1);
    assert_eq!(store.rows[0].create_time, 123);
    assert_eq!(store.rows[0].modified_time, 123);
    assert!(!store.rows[0].is_trash);
}

#[test]
fn create_with_duplicate_identifier_is_an_infra_error() {
    let mut store = ViewStore::new();
    store
        .create_view_at(&create_params("One", PARENT), ID_A.to_string(), 1)
        .unwrap();
    let r = store.create_view_at(&create_params("Two", PARENT), ID_A.to_string(), 2);
    assert_eq!(r.unwrap_err().code, ErrorCode::InfraError);
    assert_eq!(store.rows.len(), 1);
    assert_eq!(store.rows[0].name, "One");
}

#[test]
fn create_with_empty_name_is_rejected_and_nothing_is_persisted() {
    let mut store = ViewStore::new();
    let r = store.create_view_at(&create_params("", PARENT), ID_A.to_string(), 1);
    let e = r.unwrap_err();
    assert_eq!(e.code, ErrorCode::ValidationError);
    assert_eq!(e.field, "name");
    assert_eq!(store.rows.len(), 0);
}

#[test]
fn create_with_whitespace_name_is_rejected() {
    let mut store = ViewStore::new();
    let r = store.create_view_at(&create_params("   \t ", PARENT), ID_A.to_string(), 1);
    assert_eq!(r.unwrap_err().field, "name");
}

#[test]
fn create_name_length_bound_is_exact() {
    let mut store = ViewStore::new();
    let longest = "n".repeat(256);
    store
        .create_view_at(&create_params(&longest, PARENT), ID_A.to_string(), 1)
        .unwrap();
    let too_long = "n".repeat(257);
    let r = store.create_view_at(&create_params(&too_long, PARENT), ID_B.to_string(), 1);
    assert_eq!(r.unwrap_err().field, "name");
}

#[test]
fn create_trims_name_and_description() {
    let mut store = ViewStore::new();
    let mut p = create_params("  Notes  ", PARENT);
    p.desc = " about things ".to_string();
    let created = store.create_view_at(&p, ID_A.to_string(), 1).unwrap();
    assert_eq!(created.name, "Notes");
    assert_eq!(created.desc, "about things");
}

#[test]
fn create_with_malformed_parent_identifier_is_rejected() {
    let mut store = ViewStore::new();
    let r = store.create_view_at(&create_params("Notes", "not-an-id"), ID_A.to_string(), 1);
    let e = r.unwrap_err();
    assert_eq!(e.code, ErrorCode::ValidationError);
    assert_eq!(e.field, "belong_to_id");
    assert_eq!(store.rows.len(), 0);
}

#[test]
fn create_canonicalizes_the_parent_identifier() {
    // An uppercase rendering is accepted and stored in canonical lowercase
    // form, so a hierarchical read keyed by the canonical form finds it.
    let mut store = ViewStore::new();
    let upper = PARENT.to_uppercase();
    let created = store
        .create_view_at(&create_params("Notes", &upper), ID_A.to_string(), 1)
        .unwrap();
    assert_eq!(created.belong_to_id, PARENT);
}

#[test]
fn generated_identifiers_are_canonical_and_distinct() {
    let mut store = ViewStore::new();
    let a = store.create_view(&create_params("One", PARENT)).unwrap();
    let b = store.create_view(&create_params("Two", PARENT)).unwrap();
    assert_ne!(a.id, b.id);
    for id in [&a.id, &b.id] {
        assert_eq!(id.len(), 36);
        let bytes = id.as_bytes();
        for (i, c) in bytes.iter().enumerate() {
            if i == 8 || i == 13 || i == 18 || i == 23 {
                assert_eq!(*c, b'-');
            } else {
                assert!(c.is_ascii_hexdigit() && !c.is_ascii_uppercase());
            }
        }
    }
    let read = store
        .read_view(&QueryViewParams { view_id: a.id.clone(), read_belongings: false })
        .unwrap();
    assert_eq!(read.name, "One");
}

#[test]
fn read_with_malformed_identifier_is_a_validation_error() {
    let store = ViewStore::new();
    let r = store.read_view(&QueryViewParams { view_id: "xyz".to_string(), read_belongings: false });
    let e = r.unwrap_err();
    assert_eq!(e.code, ErrorCode::ValidationError);
    assert_eq!(e.field, "view_id");
}

#[test]
fn read_of_absent_identifier_is_not_found() {
    let store = ViewStore::new();
    let r = store.read_view(&QueryViewParams { view_id: ID_A.to_string(), read_belongings: false });
    assert_eq!(r.unwrap_err().code, ErrorCode::NotFound);
}

#[test]
fn update_changes_only_supplied_fields_and_advances_modified_time() {
    let mut store = ViewStore::new();
    let mut p = create_params("Notes", PARENT);
    p.desc = "keep me".to_string();
    store.create_view_at(&p, ID_A.to_string(), 100).unwrap();

    store
        .update_view_at(
            &UpdateViewParams {
                view_id: ID_A.to_string(),
                name: Some("Notes v2".to_string()),
                desc: None,
                thumbnail: None,
                is_trash: None,
            },
            105,
        )
        .unwrap();

    let read = store
        .read_view(&QueryViewParams { view_id: ID_A.to_string(), read_belongings: false })
        .unwrap();
    assert_eq!(read.name, "Notes v2");
    assert_eq!(read.desc, "keep me");
    assert_eq!(store.rows[0].modified_time, 105);
    assert_eq!(store.rows[0].create_time, 100);
}

#[test]
fn update_trash_flag_is_keyed_on_presence_not_value() {
    let mut store = ViewStore::new();
    store
        .create_view_at(&create_params("Notes", PARENT), ID_A.to_string(), 1)
        .unwrap();

    let no_flag = UpdateViewParams {
        view_id: ID_A.to_string(),
        name: None,
        desc: None,
        thumbnail: None,
        is_trash: None,
    };
    store.update_view_at(&no_flag, 2).unwrap();
    assert!(!store.rows[0].is_trash);

    let set_true = UpdateViewParams { is_trash: Some(true), ..no_flag };
    store.update_view_at(&set_true, 3).unwrap();
    assert!(store.rows[0].is_trash);

    let set_false = UpdateViewParams { is_trash: Some(false), view_id: ID_A.to_string(), name: None, desc: None, thumbnail: None };
    store.update_view_at(&set_false, 4).unwrap();
    assert!(!store.rows[0].is_trash);
}

#[test]
fn update_of_absent_identifier_succeeds_and_changes_nothing() {
    let mut store = ViewStore::new();
    store
        .create_view_at(&create_params("Notes", PARENT), ID_A.to_string(), 1)
        .unwrap();
    let r = store.update_view_at(
        &UpdateViewParams {
            view_id: ID_B.to_string(),
            name: Some("Other".to_string()),
            desc: None,
            thumbnail: None,
            is_trash: None,
        },
        9,
    );
    assert!(r.is_ok());
    assert_eq!(store.rows.len(), 1);
    assert_eq!(store.rows[0].name, "Notes");
    assert_eq!(store.rows[0].modified_time, 1);
}

#[test]
fn update_with_invalid_supplied_field_is_rejected_before_any_effect() {
    let mut store = ViewStore::new();
    store
        .create_view_at(&create_params("Notes", PARENT), ID_A.to_string(), 1)
        .unwrap();
    let r = store.update_view_at(
        &UpdateViewParams {
            view_id: ID_A.to_string(),
            name: Some("   ".to_string()),
            desc: None,
            thumbnail: None,
            is_trash: Some(true),
        },
        9,
    );
    let e = r.unwrap_err();
    assert_eq!(e.code, ErrorCode::ValidationError);
    assert_eq!(e.field, "name");
    assert_eq!(store.rows[0].name, "Notes");
    assert_eq!(store.rows[0].modified_time, 1);
    assert!(!store.rows[0].is_trash);
}

#[test]
fn delete_is_idempotent() {
    let mut store = ViewStore::new();
    store
        .create_view_at(&create_params("Notes", PARENT), ID_A.to_string(), 1)
        .unwrap();
    assert!(store.delete_view(ID_A).is_ok());
    assert_eq!(store.rows.len(), 0);
    assert!(store.delete_view(ID_A).is_ok());
    assert_eq!(store.rows.len(), 0);
    assert!(store.delete_view(ID_B).is_ok());
}

#[test]
fn delete_with_malformed_identifier_is_a_validation_error() {
    let mut store = ViewStore::new();
    let e = store.delete_view("nope").unwrap_err();
    assert_eq!(e.code, ErrorCode::ValidationError);
    assert_eq!(e.field, "view_id");
}

#[test]
fn hierarchical_read_returns_exactly_the_belongings() {
    let mut store = ViewStore::new();
    let parent = store
        .create_view_at(&create_params("Parent", OTHER), PARENT.to_string(), 1)
        .unwrap();
    store
        .create_view_at(&create_params("C1", &parent.id), ID_A.to_string(), 2)
        .unwrap();
    store
        .create_view_at(&create_params("Unrelated", OTHER), ID_D.to_string(), 3)
        .unwrap();
    store
        .create_view_at(&create_params("C2", &parent.id), ID_B.to_string(), 4)
        .unwrap();
    store
        .create_view_at(&create_params("C3", &parent.id), ID_C.to_string(), 5)
        .unwrap();

    let read = store
        .read_view(&QueryViewParams { view_id: PARENT.to_string(), read_belongings: true })
        .unwrap();
    assert_eq!(read.belongings.len(), 3);
    let names: Vec<&str> = read.belongings.iter().map(|v| v.name.as_str()).collect();
    assert_eq!(names, vec!["C1", "C2", "C3"]);
    for child in &read.belongings {
        assert_eq!(child.belong_to_id, PARENT);
        assert!(child.belongings.is_empty());
    }

    let shallow = store
        .read_view(&QueryViewParams { view_id: PARENT.to_string(), read_belongings: false })
        .unwrap();
    assert!(shallow.belongings.is_empty());
}

#[test]
fn example_scenario_create_update_read() {
    let mut store = ViewStore::new();
    let created = store
        .create_view(&create_params("Notes", PARENT))
        .unwrap();
    assert_eq!(created.version, 0);
    assert!(created.belongings.is_empty());

    store
        .update_view(&UpdateViewParams {
            view_id: created.id.clone(),
            name: Some("Notes v2".to_string()),
            desc: None,
            thumbnail: None,
            is_trash: None,
        })
        .unwrap();

    let read = store
        .read_view(&QueryViewParams { view_id: created.id.clone(), read_belongings: false })
        .unwrap();
    assert_eq!(read.name, "Notes v2");
    assert_eq!(read.desc, "");
}

#[test]
fn create_statement_binds_all_eight_columns() {
    let (sql, args) = create_view_statement(&create_params("Notes", PARENT), ID_A, 42).unwrap();
    assert_eq!(
        sql,
        "INSERT INTO view_table (id, belong_to_id, name, description, modified_time, \
         create_time, thumbnail, view_type) VALUES ($1, $2, $3, $4, $5, $6, $7, $8)"
    );
    assert_eq!(
        args,
        vec![
            SqlValue::Text(ID_A.to_string()),
            SqlValue::Text(PARENT.to_string()),
            SqlValue::Text("Notes".to_string()),
            SqlValue::Text(String::new()),
            SqlValue::BigInt(42),
            SqlValue::BigInt(42),
            SqlValue::Text(String::new()),
            SqlValue::Int(0),
        ]
    );
}

#[test]
fn read_and_delete_statements_are_scoped_by_identifier() {
    let (sql, args) = read_view_statement(ID_A).unwrap();
    assert_eq!(sql, "SELECT * FROM view_table WHERE id = $1");
    assert_eq!(args, vec![SqlValue::Text(ID_A.to_string())]);

    let (sql2, args2) = delete_view_statement(ID_A).unwrap();
    assert_eq!(sql2, "DELETE FROM view_table WHERE id = $1");
    assert_eq!(args2, vec![SqlValue::Text(ID_A.to_string())]);

    let (sql3, args3) = belongings_statement(PARENT);
    assert_eq!(sql3, "SELECT * FROM view_table WHERE belong_to_id = $1");
    assert_eq!(args3, vec![SqlValue::Text(PARENT.to_string())]);
}

#[test]
fn update_statement_skips_absent_fields_and_keeps_numbering_contiguous() {
    let params = UpdateViewParams {
        view_id: ID_A.to_string(),
        name: None,
        desc: Some("d".to_string()),
        thumbnail: None,
        is_trash: Some(true),
    };
    let (sql, args) = update_view_statement(&params, 9).unwrap();
    assert_eq!(
        sql,
        "UPDATE view_table SET description = $1, modified_time = $2, is_trash = $3 WHERE id = $4"
    );
    assert_eq!(
        args,
        vec![
            SqlValue::Text("d".to_string()),
            SqlValue::BigInt(9),
            SqlValue::Bool(true),
            SqlValue::Text(ID_A.to_string()),
        ]
    );
}

#[test]
fn update_statement_with_malformed_identifier_is_rejected() {
    let params = UpdateViewParams {
        view_id: "bad".to_string(),
        name: None,
        desc: None,
        thumbnail: None,
        is_trash: None,
    };
    let e = update_view_statement(&params, 9).unwrap_err();
    assert_eq!(e.code, ErrorCode::ValidationError);
    assert_eq!(e.field, "view_id");
}
