use relay_docblock::schema_coordinates::{
    parse_schema_coordinate, parse_schema_coordinate_best_effort, SchemaCoordinate,
};

// Strict reading

#[test]
fn strict_type() {
    assert_eq!(
        parse_schema_coordinate("Query"),
        Ok(SchemaCoordinate::Type {
            name: "Query".to_string(),
        })
    );
}

#[test]
fn strict_member() {
    assert_eq!(
        parse_schema_coordinate("Query.viewer"),
        Ok(SchemaCoordinate::Member {
            parent_name: "Query".to_string(),
            member_name: "viewer".to_string(),
        })
    );
}

#[test]
fn strict_argument() {
    assert_eq!(
        parse_schema_coordinate("Query.user(id:)"),
        Ok(SchemaCoordinate::Argument {
            parent_name: "Query".to_string(),
            member_name: "user".to_string(),
            argument_name: "id".to_string(),
        })
    );
}

#[test]
fn strict_directive() {
    assert_eq!(
        parse_schema_coordinate("@skip"),
        Ok(SchemaCoordinate::Directive {
            name: "skip".to_string(),
        })
    );
}

#[test]
fn strict_directive_argument() {
    assert_eq!(
        parse_schema_coordinate("@include(if:)"),
        Ok(SchemaCoordinate::DirectiveArgument {
            directive_name: "include".to_string(),
            argument_name: "if".to_string(),
        })
    );
}

#[test]
fn strict_trims_whitespace() {
    assert_eq!(
        parse_schema_coordinate("  Query  "),
        Ok(SchemaCoordinate::Type {
            name: "Query".to_string(),
        })
    );
}

#[test]
fn strict_underscore_names() {
    assert_eq!(
        parse_schema_coordinate("My_Type.my_field"),
        Ok(SchemaCoordinate::Member {
            parent_name: "My_Type".to_string(),
            member_name: "my_field".to_string(),
        })
    );
}

#[test]
fn strict_rejects_empty() {
    assert_eq!(
        parse_schema_coordinate(""),
        Err("Failed to parse Schema Coordinate '' with error: Expected Name or '@', got empty input.".to_string())
    );
}

#[test]
fn strict_rejects_dot_separated_argument() {
    // Type.field.argument is not valid per spec; must be Type.field(argument:)
    assert_eq!(
        parse_schema_coordinate("Type.field.argument"),
        Err("Failed to parse Schema Coordinate 'Type.field.argument' with error: Expected '(', got: '.'".to_string())
    );
}

#[test]
fn strict_rejects_trailing_dot() {
    assert_eq!(
        parse_schema_coordinate("Type."),
        Err("Failed to parse Schema Coordinate 'Type.' with error: Expected Name after '.', reached end of input.".to_string())
    );
}

#[test]
fn strict_rejects_bare_at() {
    assert_eq!(
        parse_schema_coordinate("@"),
        Err(
            "Failed to parse Schema Coordinate '@' with error: Expected directive name"
                .to_string()
        )
    );
}

#[test]
fn strict_rejects_unclosed_argument_paren() {
    // Missing `:)` after argument name
    assert_eq!(
        parse_schema_coordinate("Type.field(arg"),
        Err("Failed to parse Schema Coordinate 'Type.field(arg' with error: Expected ':' after argument name, reached end of input.".to_string())
    );
}

#[test]
fn strict_rejects_missing_argument_colon() {
    // `)` without preceding `:`
    assert_eq!(
        parse_schema_coordinate("Type.field(arg)"),
        Err("Failed to parse Schema Coordinate 'Type.field(arg)' with error: Expected ':' after argument name, got: ')'".to_string())
    );
}

#[test]
fn strict_rejects_missing_close_paren() {
    // `:` without following `)`
    assert_eq!(
        parse_schema_coordinate("Type.field(arg:"),
        Err("Failed to parse Schema Coordinate 'Type.field(arg:' with error: Expected ')' after ':', reached end of input.".to_string())
    );
}

#[test]
fn strict_rejects_leading_dot() {
    assert_eq!(
        parse_schema_coordinate(".field"),
        Err("Failed to parse Schema Coordinate '.field' with error: Expected Name or '@', got .".to_string())
    );
}

#[test]
fn strict_rejects_paren_without_member() {
    assert_eq!(
        parse_schema_coordinate("Type(arg:)"),
        Err(
            "Failed to parse Schema Coordinate 'Type(arg:)' with error: Expected '.', got: '('"
                .to_string()
        )
    );
}

#[test]
fn strict_rejects_leading_digit() {
    assert_eq!(
        parse_schema_coordinate("123"),
        Err(
            "Failed to parse Schema Coordinate '123' with error: Lexer error on: '1'"
                .to_string()
        )
    );
}

#[test]
fn strict_rejects_intermediate_whitespace() {
    assert_eq!(
        parse_schema_coordinate("Type. field"),
        Err(
            "Failed to parse Schema Coordinate 'Type. field' with error: Lexer error on: ' '"
                .to_string()
        )
    );
}

// Reading with best effort

#[test]
fn best_effort_type() {
    assert_eq!(
        parse_schema_coordinate_best_effort("Query"),
        Ok(SchemaCoordinate::Type {
            name: "Query".to_string(),
        })
    );
}

#[test]
fn best_effort_member() {
    assert_eq!(
        parse_schema_coordinate_best_effort("Query.viewer"),
        Ok(SchemaCoordinate::Member {
            parent_name: "Query".to_string(),
            member_name: "viewer".to_string(),
        })
    );
}

#[test]
fn best_effort_argument() {
    assert_eq!(
        parse_schema_coordinate_best_effort("Query.user(id:)"),
        Ok(SchemaCoordinate::Argument {
            parent_name: "Query".to_string(),
            member_name: "user".to_string(),
            argument_name: "id".to_string(),
        })
    );
}

#[test]
fn best_effort_directive() {
    assert_eq!(
        parse_schema_coordinate_best_effort("@skip"),
        Ok(SchemaCoordinate::Directive {
            name: "skip".to_string(),
        })
    );
}

#[test]
fn best_effort_directive_argument() {
    assert_eq!(
        parse_schema_coordinate_best_effort("@include(if:)"),
        Ok(SchemaCoordinate::DirectiveArgument {
            directive_name: "include".to_string(),
            argument_name: "if".to_string(),
        })
    );
}

#[test]
fn best_effort_dot_separated_argument() {
    // Type.field.argument is parsed as an argument coordinate
    assert_eq!(
        parse_schema_coordinate_best_effort("Type.field.argument"),
        Ok(SchemaCoordinate::Argument {
            parent_name: "Type".to_string(),
            member_name: "field".to_string(),
            argument_name: "argument".to_string(),
        })
    );
}

#[test]
fn best_effort_trailing_dot() {
    // Trailing dot is ignored; falls back to Type coordinate
    assert_eq!(
        parse_schema_coordinate_best_effort("Type."),
        Ok(SchemaCoordinate::Type {
            name: "Type".to_string(),
        })
    );
}

#[test]
fn best_effort_unclosed_argument_paren() {
    // Missing `:)` is tolerated in best-effort mode
    assert_eq!(
        parse_schema_coordinate_best_effort("Type.field(arg"),
        Ok(SchemaCoordinate::Argument {
            parent_name: "Type".to_string(),
            member_name: "field".to_string(),
            argument_name: "arg".to_string(),
        })
    );
}

#[test]
fn best_effort_missing_argument_colon() {
    // `)` without `:` is tolerated in best-effort mode
    assert_eq!(
        parse_schema_coordinate_best_effort("Type.field(arg)"),
        Ok(SchemaCoordinate::Argument {
            parent_name: "Type".to_string(),
            member_name: "field".to_string(),
            argument_name: "arg".to_string(),
        })
    );
}

#[test]
fn best_effort_missing_close_paren() {
    // `:` without `)` is tolerated in best-effort mode
    assert_eq!(
        parse_schema_coordinate_best_effort("Type.field(arg:"),
        Ok(SchemaCoordinate::Argument {
            parent_name: "Type".to_string(),
            member_name: "field".to_string(),
            argument_name: "arg".to_string(),
        })
    );
}

#[test]
fn best_effort_directive_dot_argument() {
    // @directive.arg is parsed as a directive argument coordinate
    assert_eq!(
        parse_schema_coordinate_best_effort("@skip.reason"),
        Ok(SchemaCoordinate::DirectiveArgument {
            directive_name: "skip".to_string(),
            argument_name: "reason".to_string(),
        })
    );
}

#[test]
fn best_effort_extra_dots_ignored() {
    // Only the first two segments after the type are used
    assert_eq!(
        parse_schema_coordinate_best_effort("Type.field.argument.extra"),
        Ok(SchemaCoordinate::Argument {
            parent_name: "Type".to_string(),
            member_name: "field".to_string(),
            argument_name: "argument".to_string(),
        })
    );
}

#[test]
fn best_effort_paren_without_member() {
    // No member name before paren; falls back to Type coordinate
    assert_eq!(
        parse_schema_coordinate_best_effort("Type(arg:)"),
        Ok(SchemaCoordinate::Type {
            name: "Type".to_string(),
        })
    );
}

#[test]
fn best_effort_still_rejects_empty() {
    assert_eq!(
        parse_schema_coordinate_best_effort(""),
        Err("Failed a best-effort parse of Schema Coordinate '' with error: Expected Name or '@', got empty input.".to_string())
    );
}

#[test]
fn best_effort_still_rejects_bare_at() {
    assert_eq!(
        parse_schema_coordinate_best_effort("@"),
        Err("Failed a best-effort parse of Schema Coordinate '@' with error: Expected directive name".to_string())
    );
}

// Writing

#[test]
fn display_type() {
    let coord = SchemaCoordinate::Type {
        name: "Query".to_string(),
    };
    assert_eq!(coord.to_string(), "Query");
}

#[test]
fn display_member() {
    let coord = SchemaCoordinate::Member {
        parent_name: "Query".to_string(),
        member_name: "viewer".to_string(),
    };
    assert_eq!(coord.to_string(), "Query.viewer");
}

#[test]
fn display_argument() {
    let coord = SchemaCoordinate::Argument {
        parent_name: "Query".to_string(),
        member_name: "user".to_string(),
        argument_name: "id".to_string(),
    };
    assert_eq!(coord.to_string(), "Query.user(id:)");
}

#[test]
fn display_directive() {
    let coord = SchemaCoordinate::Directive {
        name: "skip".to_string(),
    };
    assert_eq!(coord.to_string(), "@skip");
}

#[test]
fn display_directive_argument() {
    let coord = SchemaCoordinate::DirectiveArgument {
        directive_name: "include".to_string(),
        argument_name: "if".to_string(),
    };
    assert_eq!(coord.to_string(), "@include(if:)");
}

#[test]
fn display_roundtrips_through_strict() {
    // Display outputs the spec format, which strict parsing now handles.
    let coordinates = vec![
        SchemaCoordinate::Type {
            name: "Query".to_string(),
        },
        SchemaCoordinate::Member {
            parent_name: "Query".to_string(),
            member_name: "viewer".to_string(),
        },
        SchemaCoordinate::Argument {
            parent_name: "Query".to_string(),
            member_name: "user".to_string(),
            argument_name: "id".to_string(),
        },
        SchemaCoordinate::Directive {
            name: "skip".to_string(),
        },
        SchemaCoordinate::DirectiveArgument {
            directive_name: "include".to_string(),
            argument_name: "if".to_string(),
        },
    ];
    for coord in coordinates {
        let displayed = coord.to_string();
        let reparsed = parse_schema_coordinate(&displayed)
            .unwrap_or_else(|e| panic!("Failed to reparse '{}': {}", displayed, e));
        assert_eq!(coord, reparsed, "Roundtrip failed for '{}'", displayed);
    }
}

// Order

fn assert_sorted_order(coords: &[&str]) {
    let mut parsed: Vec<_> = coords
        .iter()
        .rev()
        .map(|s| parse_schema_coordinate(s).unwrap())
        .collect();
    parsed.sort_by(|a, b| a.partial_cmp(b).unwrap());
    let result: Vec<String> = parsed.iter().map(|c| c.to_string()).collect();
    let expected: Vec<&str> = coords.to_vec();
    assert_eq!(result, expected);
}

#[test]
fn ord_directives_before_types() {
    assert_sorted_order(&["@zzz", "AAA"]);
}

#[test]
fn ord_type_before_member_same_name() {
    assert_sorted_order(&["Foo", "Foo.bar"]);
}

#[test]
fn ord_member_before_argument_same_prefix() {
    assert_sorted_order(&["Foo.bar", "Foo.bar(id:)"]);
}

#[test]
fn ord_directive_before_directive_argument_same_name() {
    assert_sorted_order(&["@skip", "@skip(if:)"]);
}

#[test]
fn ord_dot_sorts_before_name_chars() {
    assert_sorted_order(&["Foo.bar", "Foobar"]);
}

#[test]
fn ord_mixed_variants() {
    assert_sorted_order(&[
        "@include",
        "@include(if:)",
        "@skip",
        "@skip(if:)",
        "Apple",
        "Apple.a_field",
        "Apple.a_field(id:)",
        "Apple.z_field",
        "Query",
        "Query.user",
        "Query.user(id:)",
        "Zebra",
    ]);
}

#[test]
fn ord_equal_coordinates() {
    let a = parse_schema_coordinate("Query.user").unwrap();
    let b = parse_schema_coordinate("Query.user").unwrap();
    assert_eq!(a.partial_cmp(&b), Some(std::cmp::Ordering::Equal));
}
