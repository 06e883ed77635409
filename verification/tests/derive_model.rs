use eventric_model::derive::identifier::{
    parse,
    AttributeError,
    Identifier,
    Meta,
    TokenTree,
};
use eventric_model::derive::projection::{
    dispatch_trait_name,
    update_trait_name,
    Projection,
};
use eventric_model::derive::projections::{
    projections_type_name,
    Initializer,
    Projection as DecisionProjection,
};
use eventric_model::derive::query::{
    contains_path,
    distinct_events,
    selector_form,
    EventPath,
    PathSegment,
    Query,
    Selector,
    SelectorForm,
};
use eventric_model::derive::suffixed;
use eventric_model::derive::tag::{
    fold,
    from_parsed,
    wrap_into,
    Closure,
    ParsedTag,
    Tag,
    TagError,
    TagMap,
};

fn path(segments: &[&str]) -> EventPath {
    EventPath {
        leading_colon: false,
        segments: segments
            .iter()
            .map(|s| PathSegment { ident: s.to_string(), arguments: String::new() })
            .collect(),
    }
}

fn field(name: &str) -> Tag {
    Tag::Field(name.to_string())
}

fn names(paths: &[EventPath]) -> Vec<String> {
    paths.iter().map(|p| p.segments.last().unwrap().ident.clone()).collect()
}

#[test]
fn wrap_into_converts_body() {
    assert_eq!(wrap_into(&"this.id".to_string()), "{ this.id }.into()");
}

#[test]
fn tag_closure_body_is_converted() {
    let t = from_parsed(ParsedTag::Closure(Closure { params: "this".to_string(), body: "&this.id".to_string() }));
    match t {
        Ok(Tag::Closure(c)) => {
            assert_eq!(c.params, "this");
            assert_eq!(c.body, "{ &this.id }.into()");
        },
        _ => panic!("expected a closure"),
    }
}

#[test]
fn tag_ident_is_field() {
    assert!(matches!(from_parsed(ParsedTag::Ident("id".to_string())), Ok(Tag::Field(f)) if f == "id"));
}

#[test]
fn tag_expression_becomes_closure_over_this() {
    match from_parsed(ParsedTag::Expr("&this.id".to_string())) {
        Ok(Tag::Closure(c)) => {
            assert_eq!(c.params, "this");
            assert_eq!(c.body, "{ &this.id }.into()");
        },
        _ => panic!("expected a closure"),
    }
}

#[test]
fn tag_unparsable_is_refused() {
    assert!(matches!(from_parsed(ParsedTag::Unparsable), Err(TagError::UnexpectedFormat)));
}

#[test]
fn tag_map_refuses_repeated_prefix() {
    let mut m = TagMap::new();
    assert!(m.insert("course".to_string(), vec![field("id")]));
    assert!(m.insert("student".to_string(), vec![field("student")]));
    assert!(!m.insert("course".to_string(), vec![field("other")]));
    assert_eq!(m.groups_of().len(), 2);
    assert!(m.contains(&"student".to_string()));
    assert!(!m.contains(&"teacher".to_string()));
}

#[test]
fn fold_lists_tags_group_by_group() {
    let mut m = TagMap::new();
    m.insert("course".to_string(), vec![field("id"), field("code")]);
    m.insert("student".to_string(), vec![field("student")]);
    let ident = "Enrolled".to_string();
    let inits = fold(&ident, Some(&m));
    assert_eq!(inits.len(), 3);
    let seen: Vec<(String, String)> = inits
        .iter()
        .map(|i| {
            assert_eq!(i.ident, "Enrolled");
            match &i.tag {
                Tag::Field(f) => (i.prefix.clone(), f.clone()),
                _ => panic!("field expected"),
            }
        })
        .collect();
    assert_eq!(
        seen,
        vec![
            ("course".to_string(), "id".to_string()),
            ("course".to_string(), "code".to_string()),
            ("student".to_string(), "student".to_string()),
        ]
    );
    assert!(fold(&ident, None).is_empty());
}

#[test]
fn identifier_attribute_with_one_ident() {
    let meta = Meta::List(vec![TokenTree::Ident("course_registered".to_string())]);
    assert_eq!(parse(&meta).ok().unwrap(), "course_registered");
}

#[test]
fn identifier_attribute_other_shapes() {
    assert!(matches!(parse(&Meta::Path), Err(AttributeError::ExpectedList)));
    assert!(matches!(parse(&Meta::NameValue), Err(AttributeError::ExpectedList)));
    assert!(matches!(parse(&Meta::List(vec![])), Err(AttributeError::UnsupportedShape)));
    let two = Meta::List(vec![TokenTree::Ident("a".to_string()), TokenTree::Punct(','), TokenTree::Ident("b".to_string())]);
    assert!(matches!(parse(&two), Err(AttributeError::UnsupportedShape)));
    let lit = Meta::List(vec![TokenTree::Literal("\"a\"".to_string())]);
    assert!(matches!(parse(&lit), Err(AttributeError::UnsupportedShape)));
    assert!(matches!(parse(&Meta::List(vec![TokenTree::Group])), Err(AttributeError::UnsupportedShape)));
}

#[test]
fn identifier_validation_passes_value_or_reason() {
    assert_eq!(Identifier::validate(Ok(()), 5).ok().unwrap(), 5);
    assert!(matches!(Identifier::validate(Err("bad".to_string()), 5), Err(AttributeError::Custom(m)) if m == "bad"));
}

#[test]
fn generated_names() {
    let ident = "CourseExists".to_string();
    assert_eq!(update_trait_name(&ident), "CourseExistsUpdate");
    assert_eq!(dispatch_trait_name(&ident), "CourseExistsDispatch");
    assert_eq!(projections_type_name(&"RegisterCourse".to_string()), "RegisterCourseProjections");
    assert_eq!(suffixed(&"A".to_string(), "B"), "AB");
}

#[test]
fn paths_compare_by_segments() {
    assert!(path(&["a", "B"]).same(&path(&["a", "B"])));
    assert!(!path(&["a", "B"]).same(&path(&["B"])));
    assert!(!path(&["a", "B"]).same(&path(&["a", "C"])));
    let mut lead = path(&["B"]);
    lead.leading_colon = true;
    assert!(!lead.same(&path(&["B"])));
    let mut generic = path(&["B"]);
    generic.segments[0].arguments = "<u8>".to_string();
    assert!(!generic.same(&path(&["B"])));
    assert!(contains_path(&vec![path(&["A"]), path(&["B"])], &path(&["B"])));
    assert!(!contains_path(&vec![path(&["A"])], &path(&["B"])));
    assert!(path(&["x", "Y"]).duplicate().same(&path(&["x", "Y"])));
}

#[test]
fn distinct_events_lists_each_type_once() {
    let selectors = vec![
        Selector { events: vec![path(&["Registered"]), path(&["Withdrawn"])], filter: None },
        Selector { events: vec![path(&["Withdrawn"]), path(&["Renamed"]), path(&["Registered"])], filter: None },
    ];
    let events = distinct_events(&selectors);
    assert_eq!(names(&events), vec!["Registered", "Withdrawn", "Renamed"]);
    let q = Query { select: selectors };
    assert_eq!(q.events().len(), 3);
    let p = Projection { ident: "CourseExists".to_string(), select: q.select };
    assert_eq!(p.events().len(), 3);
    assert_eq!(p.selectors().len(), 2);
}

#[test]
fn selector_form_depends_on_filter() {
    let ident = "CourseExists".to_string();
    let plain = Selector { events: vec![path(&["Registered"])], filter: None };
    assert!(matches!(selector_form(&ident, &plain), SelectorForm::Specifiers));
    let empty = Selector { events: vec![path(&["Registered"])], filter: Some(TagMap::new()) };
    assert!(matches!(selector_form(&ident, &empty), SelectorForm::Specifiers));
    let mut m = TagMap::new();
    m.insert("course".to_string(), vec![field("id")]);
    let filtered = Selector { events: vec![path(&["Registered"])], filter: Some(m) };
    match selector_form(&ident, &filtered) {
        SelectorForm::SpecifiersAndTags(tags) => {
            assert_eq!(tags.len(), 1);
            assert_eq!(tags[0].prefix, "course");
            assert_eq!(tags[0].ident, "CourseExists");
        },
        _ => panic!("tags expected"),
    }
}

#[test]
fn decision_projection_named_by_snake_case_of_type() {
    let p = DecisionProjection::from_parts(
        path(&["crate", "CourseExists"]),
        None,
        Initializer::Expr("CourseExists::new(&this.id)".to_string()),
    );
    assert_eq!(p.field_name, "course_exists");
    assert_eq!(p.initializer.params, "this");
    assert_eq!(p.initializer.body, "CourseExists::new(&this.id)");
    assert_eq!(p.field_type.segments.len(), 2);
}

#[test]
fn decision_projection_explicit_name_and_closure() {
    let p = DecisionProjection::from_parts(
        path(&["HTTPServerState"]),
        Some("server".to_string()),
        Initializer::Closure(Closure { params: "d".to_string(), body: "d.x".to_string() }),
    );
    assert_eq!(p.field_name, "server");
    assert_eq!(p.initializer.params, "d");
    let q = DecisionProjection::from_parts(path(&["HTTPServerState"]), None, Initializer::Expr("1".to_string()));
    assert_eq!(q.field_name, "http_server_state");
}

#[test]
fn decision_projection_with_derived_name() {
    let p = DecisionProjection::with_derived_name(
        path(&["CourseExists"]),
        None,
        "course".to_string(),
        Initializer::Expr("x".to_string()),
    );
    assert_eq!(p.field_name, "course");
    assert_eq!(p.initializer.params, "this");
    let q = DecisionProjection::with_derived_name(
        path(&["CourseExists"]),
        Some("named".to_string()),
        "course".to_string(),
        Initializer::Closure(Closure { params: "d".to_string(), body: "d.y".to_string() }),
    );
    assert_eq!(q.field_name, "named");
    assert_eq!(q.initializer.body, "d.y");
}
