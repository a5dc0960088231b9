use kanu::{
    check_if_target_name_correct, compile, emit, tokenize, validate, validate_target_name,
    CountRule, GrammarError, KeyWord, TargetNameError,
};

fn args(values: &[&str]) -> Vec<String> {
    values.iter().map(|v| v.to_string()).collect()
}

fn param(s: &str) -> KeyWord {
    KeyWord::Param(s.to_string())
}

fn column(s: &str) -> KeyWord {
    KeyWord::ColumnName(s.to_string())
}

#[test]
fn tokenize_select_by_name_and_age() {
    assert_eq!(
        tokenize("SelectByNameAndAge"),
        vec![KeyWord::Select, param("Name"), KeyWord::And, param("Age")]
    );
}

#[test]
fn emit_select_by_name_and_age() {
    let tokens = tokenize("SelectByNameAndAge");
    let a = args(&["alice", "30"]);
    assert_eq!(validate(&tokens, a.len()), Ok(()));
    assert_eq!(
        emit(&tokens, "users", &a),
        "select * from users where  'name'  = 'alice' and  'age'  = '30' ;"
    );
}

#[test]
fn delete_by_id() {
    assert_eq!(
        compile("DeleteById", "users", &args(&["7"])),
        Ok("delete from users where  'id'  = '7' ;".to_string())
    );
}

#[test]
fn create_lists_every_argument() {
    assert_eq!(tokenize("Create"), vec![KeyWord::Create]);
    assert_eq!(
        compile("Create", "users", &args(&["alice", "30"])),
        Ok("insert into users values(  'alice' ,  '30' );".to_string())
    );
}

#[test]
fn emit_twice_gives_the_same_text() {
    let tokens = tokenize("Create");
    let a = args(&["alice", "30"]);
    assert_eq!(emit(&tokens, "users", &a), emit(&tokens, "users", &a));
    let tokens = tokenize("SelectByNameAndAge");
    assert_eq!(emit(&tokens, "users", &a), emit(&tokens, "users", &a));
}

#[test]
fn statements_end_with_semicolon() {
    let cases: [(&str, &[&str]); 5] = [
        ("SelectByNameAndAge", &["a", "b"]),
        ("DeleteById", &["1"]),
        ("Create", &[]),
        ("SetNameByIdOrType", &["n", "i", "t"]),
        ("SetNameAndMailByIdAndType", &["n", "m", "i", "t"]),
    ];
    for (name, values) in cases {
        let sql = compile(name, "t", &args(values));
        assert!(sql.is_ok() || name == "SetNameByIdOrType");
        if let Ok(sql) = sql {
            assert!(sql.ends_with(';'));
        }
    }
}

#[test]
fn non_adjacent_equal_params_are_accepted() {
    let tokens = tokenize("SelectByNameAndName");
    assert_eq!(validate(&tokens, 2), Ok(()));
}

#[test]
fn adjacent_equal_tokens_are_rejected() {
    let tokens = tokenize("SelectByNameAndAndAge");
    assert_eq!(validate(&tokens, 2), Err(GrammarError::RepeatedToken { index: 3 }));
}

#[test]
fn select_by_without_params_is_empty_predicate() {
    let tokens = tokenize("SelectBy");
    assert_eq!(tokens, vec![KeyWord::Select]);
    assert_eq!(validate(&tokens, 0), Err(GrammarError::EmptyPredicate));
}

#[test]
fn leading_and_is_illegal_first_token() {
    let tokens = tokenize("AndName");
    assert_eq!(tokens, vec![KeyWord::And, param("Name")]);
    assert_eq!(validate(&tokens, 1), Err(GrammarError::IllegalFirstToken));
}

#[test]
fn update_with_paired_counts_validates() {
    let tokens = tokenize("SetNameAndStatusByIdAndType");
    assert_eq!(
        tokens,
        vec![
            KeyWord::Update,
            column("Name"),
            KeyWord::And,
            column("Status"),
            KeyWord::By,
            param("Id"),
            KeyWord::And,
            param("Type"),
        ]
    );
    assert_eq!(validate(&tokens, 4), Ok(()));
}

#[test]
fn update_with_wrong_total_is_count_mismatch() {
    let tokens = tokenize("SetNameAndStatusByIdAndType");
    assert_eq!(
        validate(&tokens, 3),
        Err(GrammarError::ArgumentCountMismatch {
            rule: CountRule::UpdateTotal,
            declared: 3,
            columns: 2,
            params: 2,
        })
    );
}

#[test]
fn update_with_unpaired_columns_is_count_mismatch() {
    let tokens = tokenize("SetNameAndStatusById");
    assert_eq!(
        validate(&tokens, 3),
        Err(GrammarError::ArgumentCountMismatch {
            rule: CountRule::ColumnsPairParams,
            declared: 3,
            columns: 2,
            params: 1,
        })
    );
}

#[test]
fn select_with_wrong_argument_count_is_count_mismatch() {
    let tokens = tokenize("DeleteById");
    assert_eq!(
        validate(&tokens, 2),
        Err(GrammarError::ArgumentCountMismatch {
            rule: CountRule::ParamTotal,
            declared: 2,
            columns: 0,
            params: 1,
        })
    );
}

#[test]
fn trailing_connector_is_illegal_terminal() {
    let tokens = tokenize("SelectByNameAnd");
    assert_eq!(validate(&tokens, 1), Err(GrammarError::IllegalTerminalToken));
}

#[test]
fn second_verb_is_multiple_actions() {
    let tokens = tokenize("SelectByNameDeleteByAge");
    assert_eq!(
        tokens,
        vec![KeyWord::Select, param("Name"), KeyWord::Delete, param("Age")]
    );
    assert_eq!(validate(&tokens, 2), Err(GrammarError::MultipleActions { index: 2 }));
}

#[test]
fn connector_after_verb_is_misplaced() {
    let tokens = tokenize("SelectByAndName");
    assert_eq!(
        validate(&tokens, 1),
        Err(GrammarError::IllegalConnectorPlacement { index: 1 })
    );
}

#[test]
fn by_after_verb_is_misplaced() {
    let tokens = tokenize("SelectByByName");
    assert_eq!(tokens, vec![KeyWord::Select, KeyWord::By, param("Name")]);
    assert_eq!(validate(&tokens, 1), Err(GrammarError::IllegalByPlacement { index: 1 }));
}

#[test]
fn update_statement_binds_columns_and_values() {
    assert_eq!(
        compile(
            "SetNameAndStatusByIdAndType",
            "users",
            &args(&["n", "s", "i", "t"])
        ),
        Ok("update users set name = 'n' and status = 's'  where  'id'  = 'i' and  'type'  = 't' ;"
            .to_string())
    );
}

#[test]
fn keywords_match_in_any_case() {
    assert_eq!(
        tokenize("selectbynameANDage"),
        vec![KeyWord::Select, param("name"), KeyWord::And, param("age")]
    );
}

#[test]
fn name_without_keywords_is_one_param() {
    assert_eq!(tokenize("Foo"), vec![param("Foo")]);
    assert_eq!(tokenize("FooSelectByBar"), vec![param("Foo"), KeyWord::Select, param("Bar")]);
}

#[test]
fn empty_name_has_no_tokens() {
    let tokens = tokenize("");
    assert!(tokens.is_empty());
    assert_eq!(validate(&tokens, 0), Err(GrammarError::EmptyPredicate));
}

#[test]
fn create_with_extra_literal_keeps_cursor_on_last_argument() {
    assert_eq!(
        compile("CreateFoo", "t", &args(&["a"])),
        Ok("insert into t values(  'foo'  = 'a'  'a' );".to_string())
    );
}

#[test]
fn target_names() {
    assert_eq!(validate_target_name("Users"), Ok(()));
    assert_eq!(validate_target_name(""), Err(TargetNameError::Empty));
    assert_eq!(validate_target_name("Usérs"), Err(TargetNameError::NonAscii));
    assert_eq!(validate_target_name("User1"), Err(TargetNameError::Digit));
    assert_eq!(validate_target_name("User_s"), Err(TargetNameError::SpecialCharacter));
    assert_eq!(validate_target_name("User s"), Err(TargetNameError::SpecialCharacter));
    assert_eq!(check_if_target_name_correct(&"Accounts".to_string()), Ok(()));
    assert_eq!(
        check_if_target_name_correct(&"9lives".to_string()),
        Err(TargetNameError::Digit)
    );
}
