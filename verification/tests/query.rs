use winter_mcp::query::{
    adhoc_rules_program, check_query_input, extra_declarations_program, extra_facts_program,
    forbidden_patterns, generate_query_wrapper, parse_declaration_types, parse_query,
    parse_single_arg, QueryArg, MAX_QUERY_LENGTH,
};
use winter_mcp::strset::StrSet;

#[test]
fn test_parse_query_with_variables() {
    let parsed = parse_query("mutual_follow(X, Y)").unwrap();
    assert_eq!(parsed.name, "mutual_follow");
    assert_eq!(parsed.arity(), 2);
    assert_eq!(
        parsed.args,
        vec![
            QueryArg::Variable("X".to_string()),
            QueryArg::Variable("Y".to_string())
        ]
    );
    assert_eq!(parsed.variables(), vec!["X", "Y"]);
}

#[test]
fn test_parse_query_with_constant() {
    let parsed = parse_query(r#"should_engage("did:plc:abc")"#).unwrap();
    assert_eq!(parsed.name, "should_engage");
    assert_eq!(parsed.arity(), 1);
    assert_eq!(
        parsed.args,
        vec![QueryArg::Constant(r#""did:plc:abc""#.to_string())]
    );
    assert!(parsed.variables().is_empty());
}

#[test]
fn test_parse_query_mixed_args() {
    let parsed = parse_query(r#"follows(X, "did:plc:abc")"#).unwrap();
    assert_eq!(parsed.name, "follows");
    assert_eq!(parsed.arity(), 2);
    assert_eq!(
        parsed.args,
        vec![
            QueryArg::Variable("X".to_string()),
            QueryArg::Constant(r#""did:plc:abc""#.to_string())
        ]
    );
    assert_eq!(parsed.variables(), vec!["X"]);
}

#[test]
fn test_parse_query_nullary() {
    let parsed = parse_query("has_data()").unwrap();
    assert_eq!(parsed.name, "has_data");
    assert_eq!(parsed.arity(), 0);
    assert!(parsed.args.is_empty());
}

#[test]
fn test_parse_query_underscore_variable() {
    let parsed = parse_query("foo(_X, Y)").unwrap();
    assert_eq!(
        parsed.args,
        vec![
            QueryArg::Variable("_X".to_string()),
            QueryArg::Variable("Y".to_string())
        ]
    );
}

#[test]
fn test_parse_query_numeric_constant() {
    let parsed = parse_query("age(X, 42)").unwrap();
    assert_eq!(
        parsed.args,
        vec![
            QueryArg::Variable("X".to_string()),
            QueryArg::Constant("42".to_string())
        ]
    );
}

#[test]
fn test_generate_query_wrapper_all_variables() {
    let empty_types = Vec::new();
    let (wrapper, arity) = generate_query_wrapper("follows(X, Y)", None, &empty_types);
    assert_eq!(arity, 2);
    assert!(wrapper.contains(".decl _query_result(arg0: symbol, arg1: symbol)"));
    assert!(wrapper.contains(".output _query_result"));
    assert!(wrapper.contains("_query_result(X, Y) :- follows(X, Y)."));
}

#[test]
fn test_generate_query_wrapper_with_constant() {
    let empty_types = Vec::new();
    let (wrapper, arity) =
        generate_query_wrapper(r#"should_engage("did:plc:abc")"#, None, &empty_types);
    // When all args are constants, we still output them so user sees what matched
    assert_eq!(arity, 1);
    assert!(wrapper.contains(".decl _query_result(arg0: symbol)"));
    assert!(wrapper.contains(".output _query_result"));
    assert!(wrapper.contains(r#"_query_result("did:plc:abc") :- should_engage("did:plc:abc")."#));
}

#[test]
fn test_generate_query_wrapper_mixed() {
    let empty_types = Vec::new();
    let (wrapper, arity) =
        generate_query_wrapper(r#"follows(X, "did:plc:abc")"#, None, &empty_types);
    // Only variables in output
    assert_eq!(arity, 1);
    assert!(wrapper.contains(".decl _query_result(arg0: symbol)"));
    assert!(wrapper.contains(r#"_query_result(X) :- follows(X, "did:plc:abc")."#));
}

#[test]
fn test_generate_query_wrapper_nullary() {
    let empty_types = Vec::new();
    let (wrapper, arity) = generate_query_wrapper("has_data()", None, &empty_types);
    assert_eq!(arity, 0);
    assert!(wrapper.contains(".decl _query_result()"));
    assert!(wrapper.contains("_query_result() :- has_data()."));
}

#[test]
fn test_forbidden_patterns() {
    let forbidden = forbidden_patterns();
    assert!(forbidden.contains(&"$("));
    assert!(forbidden.contains(&"`"));
    assert!(forbidden.contains(&";"));
    assert!(forbidden.contains(&"|"));

    // > and < are intentionally allowed for datalog comparisons
    assert!(!forbidden.contains(&">"));
    assert!(!forbidden.contains(&"<"));

    // \n and \r are intentionally allowed for multi-line rules
    assert!(!forbidden.contains(&"\n"));
    assert!(!forbidden.contains(&"\r"));
}

#[test]
fn test_max_query_length() {
    assert_eq!(MAX_QUERY_LENGTH, 4096);
}

// --- further cases ---

#[test]
fn parse_query_nested_and_quoted_commas() {
    let parsed = parse_query(r#" p ( X , "a, b", f(1, 2) , , Y ) "#).unwrap();
    assert_eq!(parsed.name, "p");
    assert_eq!(
        parsed.args,
        vec![
            QueryArg::Variable("X".to_string()),
            QueryArg::Constant(r#""a, b""#.to_string()),
            QueryArg::Constant("f(1, 2)".to_string()),
            QueryArg::Variable("Y".to_string()),
        ]
    );
    assert!(parse_query("no_parens").is_none());
    assert!(parse_query("open(").is_none());
}

#[test]
fn parse_single_arg_cases() {
    assert_eq!(parse_single_arg("  \"x\" "), QueryArg::Constant("\"x\"".to_string()));
    assert_eq!(parse_single_arg("\""), QueryArg::Constant("\"".to_string()));
    assert_eq!(parse_single_arg("_"), QueryArg::Variable("_".to_string()));
    assert_eq!(parse_single_arg("Éclair"), QueryArg::Variable("Éclair".to_string()));
    assert_eq!(parse_single_arg("abc"), QueryArg::Constant("abc".to_string()));
    assert_eq!(parse_single_arg(""), QueryArg::Constant("".to_string()));
}

#[test]
fn parse_declaration_types_cases() {
    assert_eq!(
        parse_declaration_types("tool_calls(n: number)"),
        Some(("tool_calls".to_string(), vec!["number".to_string()]))
    );
    assert_eq!(
        parse_declaration_types("  .decl edge(a: symbol, b, c :  number )"),
        Some((
            "edge".to_string(),
            vec!["symbol".to_string(), "symbol".to_string(), "number".to_string()]
        ))
    );
    assert_eq!(parse_declaration_types("flag()"), Some(("flag".to_string(), vec![])));
    assert_eq!(parse_declaration_types("(x: number)"), None);
    assert_eq!(parse_declaration_types("nothing"), None);
}

#[test]
fn generate_query_wrapper_declares_unknown_predicates() {
    let types = vec![(
        "tool_calls".to_string(),
        vec!["number".to_string()],
    )];
    let declared = StrSet::new();
    let (wrapper, arity) = generate_query_wrapper("tool_calls(N)", Some(&declared), &types);
    assert_eq!(arity, 1);
    assert_eq!(
        wrapper,
        ".decl tool_calls(arg0: number)\n.decl _query_result(arg0: number)\n.output _query_result\n_query_result(N) :- tool_calls(N).\n"
    );
    let (w2, a2) = generate_query_wrapper("edge(_, Y, \"k\")", Some(&declared), &Vec::new());
    assert_eq!(a2, 2);
    assert_eq!(
        w2,
        ".decl edge(arg0: symbol, arg1: symbol, arg2: symbol)\n.decl _query_result(arg0: symbol)\n.output _query_result\n_query_result(_, Y) :- edge(_, Y, \"k\").\n"
    );
    let (w3, a3) = generate_query_wrapper("plain", None, &Vec::new());
    assert_eq!(a3, 0);
    assert_eq!(
        w3,
        ".decl _query_result()\n.output _query_result\n_query_result() :- plain.\n"
    );
}

#[test]
fn check_query_input_errors() {
    assert!(check_query_input("  follows(X, Y)  ", None, None, None).is_ok());
    assert_eq!(
        check_query_input("a(X) ; rm", None, None, None),
        Err("Query contains forbidden pattern: \";\"".to_string())
    );
    let long = "x".repeat(4097);
    assert_eq!(
        check_query_input(&long, None, None, None),
        Err("Query too long: 4097 chars (max 4096)".to_string())
    );
    assert_eq!(
        check_query_input("q(X)", Some("r(X) :- `ls`."), None, None),
        Err("Extra rules contain forbidden pattern: \"`\"".to_string())
    );
    let facts = vec!["ok(1)".to_string(), "bad(1) && x".to_string()];
    assert_eq!(
        check_query_input("q(X)", None, Some(&facts), None),
        Err("Extra fact contains forbidden pattern: \"&&\"".to_string())
    );
    let big = vec!["y".repeat(3000), "z".repeat(1200)];
    assert_eq!(
        check_query_input("q(X)", None, None, Some(&big)),
        Err("Extra declarations too long: 4200 chars (max 4096)".to_string())
    );
    assert_eq!(
        check_query_input("q(X)", Some(&"r".repeat(5000)), None, None),
        Err("Extra rules too long: 5000 chars (max 4096)".to_string())
    );
}

#[test]
fn adhoc_rules_declare_new_heads() {
    let mut declared = StrSet::from_strings(vec!["follows".to_string()]);
    let heads = vec![
        ("follows".to_string(), 2),
        ("mutual".to_string(), 2),
        ("mutual".to_string(), 2),
        ("flag".to_string(), 0),
    ];
    let p = adhoc_rules_program("mutual(X, Y) :- follows(X, Y), follows(Y, X).", &heads, &mut declared);
    assert_eq!(
        p,
        ".decl mutual(arg0: symbol, arg1: symbol)\n.decl flag()\n// Ad-hoc rules\nmutual(X, Y) :- follows(X, Y), follows(Y, X).\n\n"
    );
    assert!(declared.contains("mutual"));
    assert!(declared.contains("flag"));
}

#[test]
fn extra_declarations_declare_and_record_types() {
    let mut declared = StrSet::from_strings(vec!["tool_calls".to_string()]);
    let mut types: Vec<(String, Vec<String>)> = Vec::new();
    let decls = vec![
        "tool_calls(n: number)".to_string(),
        ".decl score(who: symbol, s: number)".to_string(),
        "score(x: symbol)".to_string(),
        "not a declaration".to_string(),
    ];
    let p = extra_declarations_program(&decls, &mut declared, &mut types);
    assert_eq!(p, ".decl score(arg0: symbol, arg1: number)\n");
    assert!(declared.contains("score"));
    assert_eq!(types.len(), 2);
    assert_eq!(types[0], ("tool_calls".to_string(), vec!["number".to_string()]));
    // The first declaration of a predicate gives its types.
    assert_eq!(types[1], ("score".to_string(), vec!["symbol".to_string(), "number".to_string()]));
}

#[test]
fn extra_facts_one_per_line() {
    let facts = vec!["tool_calls(3)".to_string(), "_now(\"2024-01-01T00:00:00Z\")".to_string()];
    assert_eq!(extra_facts_program(&facts), "tool_calls(3).\n_now(\"2024-01-01T00:00:00Z\").\n");
    assert_eq!(extra_facts_program(&vec![]), "");
}
