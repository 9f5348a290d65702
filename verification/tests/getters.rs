use cherino::getters::{
    derive_getters, get_getter_rename, has_getter_skip, Attribute, Field, FieldType, GetterPlan,
    GetterShape, GettersError, InnerType, InputData, LitValue, MetaItem, MetaValue,
};

fn path(name: &str) -> FieldType {
    FieldType::Path { last: Some(name.to_string()), first_arg: None }
}

fn generic(name: &str, arg: FieldType) -> FieldType {
    FieldType::Path { last: Some(name.to_string()), first_arg: Some(Box::new(arg)) }
}

fn field(name: &str, ty: FieldType, attrs: Vec<Attribute>) -> Field {
    Field { ident: Some(name.to_string()), ty, attrs }
}

fn bare(name: &str) -> MetaItem {
    MetaItem { ident: Some(name.to_string()), value: MetaValue::Bare }
}

fn assign_str(name: &str, value: &str) -> MetaItem {
    MetaItem {
        ident: Some(name.to_string()),
        value: MetaValue::Assign { lit: LitValue::Str(value.to_string()), ends_cleanly: true },
    }
}

fn getter_attr(items: Vec<MetaItem>) -> Attribute {
    Attribute { path: Some("getter".to_string()), items: Some(items) }
}

/// The struct of the derive's integration tests:
/// name: String, count: u64, ratio: f64, flag: bool, tags: Vec<String>,
/// nickname: Option<String>, budget: Option<u32>, #[getter(skip)] secret: String,
/// #[getter(rename = "identifier")] id: String.
fn sample() -> InputData {
    InputData::NamedStruct(vec![
        field("name", path("String"), vec![]),
        field("count", path("u64"), vec![]),
        field("ratio", path("f64"), vec![]),
        field("flag", path("bool"), vec![]),
        field("tags", generic("Vec", path("String")), vec![]),
        field("nickname", generic("Option", path("String")), vec![]),
        field("budget", generic("Option", path("u32")), vec![]),
        field("secret", path("String"), vec![getter_attr(vec![bare("skip")])]),
        field("id", path("String"), vec![getter_attr(vec![assign_str("rename", "identifier")])]),
    ])
}

fn plans(input: &InputData) -> Vec<GetterPlan> {
    derive_getters(input).expect("a struct with named fields is accepted")
}

fn find<'a>(plans: &'a [GetterPlan], method: &str) -> Option<&'a GetterPlan> {
    plans.iter().find(|p| p.method == method)
}

#[test]
fn generates_field_accessors_with_shape_aware_returns() {
    let plans = plans(&sample());
    // String -> &str
    assert_eq!(find(&plans, "name").unwrap().shape, GetterShape::Str);
    // Copy types are returned by value.
    assert_eq!(find(&plans, "count").unwrap().shape, GetterShape::ByValue);
    assert_eq!(find(&plans, "ratio").unwrap().shape, GetterShape::ByValue);
    assert_eq!(find(&plans, "flag").unwrap().shape, GetterShape::ByValue);
    // Vec<T> -> &[T]
    assert_eq!(find(&plans, "tags").unwrap().shape, GetterShape::Slice(InnerType::FirstArg));
    // Option<String> -> Option<&str>
    assert_eq!(find(&plans, "nickname").unwrap().shape, GetterShape::OptionStr);
    // Option<T> -> Option<&T>
    assert_eq!(
        find(&plans, "budget").unwrap().shape,
        GetterShape::OptionRef(InnerType::FirstArg)
    );
    // rename attribute renames the accessor.
    let id = find(&plans, "identifier").unwrap();
    assert_eq!(id.field, "id");
    assert_eq!(id.field_index, 8);
    assert_eq!(id.shape, GetterShape::Str);
    assert!(find(&plans, "id").is_none());
}

#[test]
fn skip_attribute_suppresses_the_accessor() {
    let plans = plans(&sample());
    assert!(find(&plans, "secret").is_none());
    assert!(plans.iter().all(|p| p.field != "secret"));
    assert_eq!(plans.len(), 8);
}

#[test]
fn accessors_come_in_field_order() {
    let plans = plans(&sample());
    let order: Vec<usize> = plans.iter().map(|p| p.field_index).collect();
    assert_eq!(order, vec![0, 1, 2, 3, 4, 5, 6, 8]);
    let names: Vec<&str> = plans.iter().map(|p| p.method.as_str()).collect();
    assert_eq!(
        names,
        vec!["name", "count", "ratio", "flag", "tags", "nickname", "budget", "identifier"]
    );
}

#[test]
fn non_struct_inputs_are_rejected() {
    assert_eq!(derive_getters(&InputData::NotStruct).unwrap_err(), GettersError::NotStruct);
    assert_eq!(
        derive_getters(&InputData::UnnamedStruct).unwrap_err(),
        GettersError::UnnamedFields
    );
    assert_eq!(GettersError::NotStruct.message(), "Getters only supports structs");
    assert_eq!(
        GettersError::UnnamedFields.message(),
        "Getters only supports structs with named fields"
    );
}

#[test]
fn other_shapes() {
    let input = InputData::NamedStruct(vec![
        field("r", FieldType::Reference, vec![]),
        field("h", path("HashMap"), vec![]),
        field("big", path("u128"), vec![]),
        field("v", path("Vec"), vec![]),
        field("o", generic("Option", path("Vec")), vec![]),
        field("w", FieldType::Other, vec![]),
        Field { ident: None, ty: path("String"), attrs: vec![] },
    ]);
    let plans = plans(&input);
    let shapes: Vec<GetterShape> = plans.iter().map(|p| p.shape).collect();
    assert_eq!(
        shapes,
        vec![
            GetterShape::ByValue,
            GetterShape::ByRef,
            GetterShape::ByRef,
            GetterShape::Slice(InnerType::Infer),
            GetterShape::OptionRef(InnerType::FirstArg),
            GetterShape::ByRef,
        ]
    );
}

#[test]
fn skip_is_read_until_an_item_with_a_value() {
    // `#[getter(other, skip)]` skips.
    assert!(has_getter_skip(&vec![getter_attr(vec![bare("other"), bare("skip")])]));
    // `#[getter(rename = "x", skip)]`: reading stops at the unread value.
    assert!(!has_getter_skip(&vec![getter_attr(vec![assign_str("rename", "x"), bare("skip")])]));
    // `#[getter(skip = 1)]` still skips: the item is seen before its value.
    assert!(has_getter_skip(&vec![getter_attr(vec![MetaItem {
        ident: Some("skip".to_string()),
        value: MetaValue::Assign { lit: LitValue::NonStr, ends_cleanly: true },
    }])]));
    // Other attributes, and a bare `#[getter]`, do not skip.
    assert!(!has_getter_skip(&vec![Attribute {
        path: Some("serde".to_string()),
        items: Some(vec![bare("skip")]),
    }]));
    assert!(!has_getter_skip(&vec![Attribute { path: Some("getter".to_string()), items: None }]));
    // Any getter attribute of the field may ask for it.
    assert!(has_getter_skip(&vec![getter_attr(vec![]), getter_attr(vec![bare("skip")])]));
}

#[test]
fn rename_reads_string_literals_in_order() {
    // The last string literal of an attribute wins.
    assert_eq!(
        get_getter_rename(&vec![getter_attr(vec![
            assign_str("rename", "a"),
            assign_str("rename", "b"),
        ])]),
        Some("b".to_string())
    );
    // A non-string literal is ignored, reading goes on.
    assert_eq!(
        get_getter_rename(&vec![getter_attr(vec![
            MetaItem {
                ident: Some("rename".to_string()),
                value: MetaValue::Assign { lit: LitValue::NonStr, ends_cleanly: true },
            },
            assign_str("rename", "c"),
        ])]),
        Some("c".to_string())
    );
    // Stray tokens after the literal keep the name but stop reading.
    assert_eq!(
        get_getter_rename(&vec![getter_attr(vec![
            MetaItem {
                ident: Some("rename".to_string()),
                value: MetaValue::Assign {
                    lit: LitValue::Str("d".to_string()),
                    ends_cleanly: false,
                },
            },
            assign_str("rename", "e"),
        ])]),
        Some("d".to_string())
    );
    // A rename without `=` stops reading.
    assert_eq!(
        get_getter_rename(&vec![getter_attr(vec![bare("rename"), assign_str("rename", "f")])]),
        None
    );
    // `skip` before the rename lets reading go on.
    assert_eq!(
        get_getter_rename(&vec![getter_attr(vec![bare("skip"), assign_str("rename", "g")])]),
        Some("g".to_string())
    );
    // The first attribute that gives a name wins.
    assert_eq!(
        get_getter_rename(&vec![
            getter_attr(vec![bare("skip")]),
            getter_attr(vec![assign_str("rename", "h")]),
            getter_attr(vec![assign_str("rename", "i")]),
        ]),
        Some("h".to_string())
    );
    // An invalid literal leaves no name.
    assert_eq!(
        get_getter_rename(&vec![getter_attr(vec![MetaItem {
            ident: Some("rename".to_string()),
            value: MetaValue::Assign { lit: LitValue::Invalid, ends_cleanly: true },
        }])]),
        None
    );
}
