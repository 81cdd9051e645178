use view_service::builder::SqlBuilder;
use view_service::builder::SqlValue;
use view_service::errors::ErrorCode;

#[test]
fn insert_renders_columns_and_placeholders_in_call_order() {
    let (sql, args) = SqlBuilder::create("view_table")
        .add_arg("a", SqlValue::Int(1))
        .add_arg("b", SqlValue::Int(2))
        .add_arg("c", SqlValue::Int(3))
        .build()
        .unwrap();
    assert_eq!(sql, "INSERT INTO view_table (a, b, c) VALUES ($1, $2, $3)");
    assert_eq!(args, vec![SqlValue::Int(1), SqlValue::Int(2), SqlValue::Int(3)]);
}

#[test]
fn insert_with_no_columns_is_a_build_error() {
    let r = SqlBuilder::create("view_table").build();
    assert!(r.is_err());
    assert_eq!(r.unwrap_err().code, ErrorCode::BuildError);
}

#[test]
fn select_without_conditions_is_unconditioned() {
    let (sql, args) = SqlBuilder::select("view_table").add_field("*").build().unwrap();
    assert_eq!(sql, "SELECT * FROM view_table");
    assert!(args.is_empty());
}

#[test]
fn select_with_conditions_renders_where_clause() {
    let (sql, args) = SqlBuilder::select("view_table")
        .add_field("*")
        .and_where_eq("id", SqlValue::Text("x".to_string()))
        .and_where_eq("is_trash", SqlValue::Bool(false))
        .build()
        .unwrap();
    assert_eq!(sql, "SELECT * FROM view_table WHERE id = $1 AND is_trash = $2");
    assert_eq!(args, vec![SqlValue::Text("x".to_string()), SqlValue::Bool(false)]);
}

#[test]
fn update_renumbers_after_skipped_optional_fields() {
    // Two of three optional contributions absent: numbering stays contiguous.
    let (sql, args) = SqlBuilder::update("view_table")
        .add_some_arg("name", Some(SqlValue::Text("n".to_string())))
        .add_some_arg("description", None)
        .add_some_arg("thumbnail", None)
        .add_some_arg("modified_time", Some(SqlValue::BigInt(7)))
        .and_where_eq("id", SqlValue::Text("x".to_string()))
        .build()
        .unwrap();
    assert_eq!(sql, "UPDATE view_table SET name = $1, modified_time = $2 WHERE id = $3");
    assert_eq!(
        args,
        vec![
            SqlValue::Text("n".to_string()),
            SqlValue::BigInt(7),
            SqlValue::Text("x".to_string()),
        ]
    );
}

#[test]
fn update_placeholder_count_equals_argument_count_for_each_subset() {
    // One required field and three optional ones; every subset of the
    // optional ones present must give exactly N+K placeholders and N+K
    // arguments, in matching order.
    for mask in 0..8u32 {
        let mut b = SqlBuilder::update("t");
        let mut expected = 0usize;
        if mask & 1 != 0 {
            b = b.add_some_arg("o1", Some(SqlValue::Int(1)));
            expected += 1;
        } else {
            b = b.add_some_arg("o1", None);
        }
        if mask & 2 != 0 {
            b = b.add_some_arg("o2", Some(SqlValue::Int(2)));
            expected += 1;
        } else {
            b = b.add_some_arg("o2", None);
        }
        if mask & 4 != 0 {
            b = b.add_some_arg("o3", Some(SqlValue::Int(3)));
            expected += 1;
        } else {
            b = b.add_some_arg("o3", None);
        }
        b = b.add_arg("req", SqlValue::Int(9));
        expected += 1;
        let (sql, args) = b.build().unwrap();
        assert_eq!(args.len(), expected);
        assert_eq!(sql.matches('$').count(), expected);
        let last = format!("req = ${}", expected);
        assert!(sql.ends_with(&last), "sql was {sql}");
    }
}

#[test]
fn update_with_empty_set_clause_is_a_build_error() {
    let r = SqlBuilder::update("view_table")
        .add_some_arg("name", None)
        .and_where_eq("id", SqlValue::Text("x".to_string()))
        .build();
    assert!(r.is_err());
    assert_eq!(r.unwrap_err().code, ErrorCode::BuildError);
}

#[test]
fn add_arg_if_is_keyed_on_the_predicate_not_the_value() {
    let (sql, args) = SqlBuilder::update("t")
        .add_arg("m", SqlValue::BigInt(1))
        .add_arg_if(true, "is_trash", SqlValue::Bool(false))
        .build()
        .unwrap();
    assert_eq!(sql, "UPDATE t SET m = $1, is_trash = $2");
    assert_eq!(args, vec![SqlValue::BigInt(1), SqlValue::Bool(false)]);

    let (sql2, args2) = SqlBuilder::update("t")
        .add_arg("m", SqlValue::BigInt(1))
        .add_arg_if(false, "is_trash", SqlValue::Bool(true))
        .build()
        .unwrap();
    assert_eq!(sql2, "UPDATE t SET m = $1");
    assert_eq!(args2, vec![SqlValue::BigInt(1)]);
}

#[test]
fn delete_scoped_by_identifier() {
    let (sql, args) = SqlBuilder::delete("view_table")
        .and_where_eq("id", SqlValue::Text("k".to_string()))
        .build()
        .unwrap();
    assert_eq!(sql, "DELETE FROM view_table WHERE id = $1");
    assert_eq!(args, vec![SqlValue::Text("k".to_string())]);
}

#[test]
fn unconditioned_delete_is_permitted_by_the_builder() {
    let (sql, args) = SqlBuilder::delete("view_table").build().unwrap();
    assert_eq!(sql, "DELETE FROM view_table");
    assert!(args.is_empty());
}

#[test]
fn placeholders_past_nine_render_two_digits() {
    let mut b = SqlBuilder::create("t");
    for i in 0..12 {
        b = b.add_arg(&format!("c{i}"), SqlValue::Int(i));
    }
    let (sql, args) = b.build().unwrap();
    assert_eq!(args.len(), 12);
    assert!(sql.ends_with("$10, $11, $12)"), "sql was {sql}");
}
