use role_trace::attr::MetaEntry;
use role_trace::attr::extract_roles;
use role_trace::emit::FnDescriptor;
use role_trace::emit::TraceStmt;
use role_trace::emit::check_roles;
use role_trace::params::Param;
use role_trace::params::find_claims_param;

fn pair(key: &str, value: &str) -> MetaEntry {
    MetaEntry::StrPair { key: key.to_string(), value: value.to_string() }
}

fn named(name: &str, tokens: &str) -> Param {
    Param::Named { name: name.to_string(), tokens: tokens.to_string() }
}

fn descriptor(name: &str, params: Vec<Param>, ret: &str, body: &str) -> FnDescriptor {
    FnDescriptor {
        attrs: Vec::new(),
        vis: String::new(),
        name: name.to_string(),
        params,
        ret: ret.to_string(),
        body: body.to_string(),
    }
}

#[test]
fn roles_are_ordered_filtered_values() {
    let entries = vec![
        pair("role", "admin"),
        pair("level", "high"),
        MetaEntry::Other,
        pair("role", "user"),
        pair("role", "admin"),
    ];
    let roles = extract_roles(&entries);
    assert_eq!(roles, vec!["admin".to_string(), "user".to_string(), "admin".to_string()]);
}

#[test]
fn roles_keep_duplicates() {
    let entries = vec![pair("role", "a"), pair("role", "a")];
    assert_eq!(extract_roles(&entries), vec!["a".to_string(), "a".to_string()]);
}

#[test]
fn empty_argument_list_gives_no_roles() {
    let entries: Vec<MetaEntry> = Vec::new();
    assert_eq!(extract_roles(&entries), Vec::<String>::new());
}

#[test]
fn non_role_entries_give_no_roles_and_still_render() {
    let entries = vec![pair("level", "high"), MetaEntry::Other];
    assert_eq!(extract_roles(&entries), Vec::<String>::new());
    let func = descriptor("noop", Vec::new(), "", "{ () }");
    let wrapped = check_roles(&entries, &func);
    assert_eq!(wrapped.body[0], TraceStmt::PrintRoles { roles: Vec::new() });
}

#[test]
fn claims_parameter_is_found_first() {
    let params = vec![
        Param::Receiver { tokens: "&self".to_string() },
        named("other", "other: u32"),
        named("jwt_guard", "jwt_guard: Guard"),
        named("jwt_guard", "jwt_guard: Guard"),
    ];
    assert_eq!(find_claims_param(&params), Some(2));
}

#[test]
fn no_claims_parameter_is_found_without_the_name() {
    let params = vec![
        named("guard", "guard: Guard"),
        Param::Unnamed { tokens: "(a, b): (u8, u8)".to_string() },
    ];
    assert_eq!(find_claims_param(&params), None);
}

#[test]
fn unnamed_pattern_is_not_a_claims_carrier() {
    let params = vec![Param::Unnamed { tokens: "JwtGuard { claims }: JwtGuard".to_string() }];
    assert_eq!(find_claims_param(&params), None);
}

#[test]
fn wrapped_greet_prints_roles_entry_body_exit() {
    let entries = vec![pair("role", "admin")];
    let func = descriptor("greet", Vec::new(), "-> String", "{ \"hi\".to_string() }");
    let wrapped = check_roles(&entries, &func);
    assert_eq!(
        wrapped.body,
        vec![
            TraceStmt::PrintRoles { roles: vec!["admin".to_string()] },
            TraceStmt::PrintEntry { name: "greet".to_string() },
            TraceStmt::RunBody { body: "{ \"hi\".to_string() }".to_string() },
            TraceStmt::PrintExit { name: "greet".to_string() },
            TraceStmt::ReturnResult,
        ]
    );
}

#[test]
fn claims_carrier_adds_one_inspection_between_entry_and_body() {
    let entries: Vec<MetaEntry> = Vec::new();
    let params = vec![named("jwt_guard", "jwt_guard: JwtGuard")];
    let func = descriptor("secured", params, "-> u32", "{ 7 }");
    let wrapped = check_roles(&entries, &func);
    assert_eq!(
        wrapped.body,
        vec![
            TraceStmt::PrintRoles { roles: Vec::new() },
            TraceStmt::PrintEntry { name: "secured".to_string() },
            TraceStmt::PrintClaims { param: "jwt_guard".to_string() },
            TraceStmt::RunBody { body: "{ 7 }".to_string() },
            TraceStmt::PrintExit { name: "secured".to_string() },
            TraceStmt::ReturnResult,
        ]
    );
    let inspections = wrapped
        .body
        .iter()
        .filter(|s| matches!(s, TraceStmt::PrintClaims { .. }))
        .count();
    assert_eq!(inspections, 1);
}

#[test]
fn no_claims_carrier_means_no_inspection() {
    let entries = vec![pair("role", "user")];
    let func = descriptor("open_to_all", vec![named("input", "input: u32")], "", "{ () }");
    let wrapped = check_roles(&entries, &func);
    let inspections = wrapped
        .body
        .iter()
        .filter(|s| matches!(s, TraceStmt::PrintClaims { .. }))
        .count();
    assert_eq!(inspections, 0);
}

#[test]
fn signature_is_copied_verbatim() {
    let entries = vec![pair("role", "admin")];
    let func = FnDescriptor {
        attrs: vec!["#[inline]".to_string(), "#[must_use]".to_string()],
        vis: "pub".to_string(),
        name: "compute".to_string(),
        params: vec![
            Param::Receiver { tokens: "&self".to_string() },
            named("count", "count: usize"),
            Param::Unnamed { tokens: "(a, b): (u8, u8)".to_string() },
        ],
        ret: "-> usize".to_string(),
        body: "{ count }".to_string(),
    };
    let wrapped = check_roles(&entries, &func);
    assert_eq!(wrapped.attrs, func.attrs);
    assert_eq!(wrapped.vis, func.vis);
    assert_eq!(wrapped.name, func.name);
    assert_eq!(wrapped.params, func.params);
    assert_eq!(wrapped.ret, func.ret);
}

#[test]
fn role_with_non_identifier_key_shape_is_ignored() {
    let entries = vec![MetaEntry::Other, pair("role", "x"), MetaEntry::Other];
    assert_eq!(extract_roles(&entries), vec!["x".to_string()]);
}
