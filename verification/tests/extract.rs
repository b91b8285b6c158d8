use getset2::args::{
    self, allowed_attr, contains_string, push_metas, well_known_attr, Args, AttrPath, AttrStyle,
    Attribute, ExprPath, Flag, NameArgs, NameValue,
};
use getset2::error::{Error, Span};
use getset2::extract;
use getset2::getter::{FieldArgs, StructArgs};
use getset2::setter;
use getset2::vis::Restricted;

fn attribute<T>(style: AttrStyle, segments: &[&str], text: &str, args: Result<T, String>) -> Attribute<T> {
    Attribute {
        style,
        path: AttrPath {
            leading_colon: false,
            first: segments[0].to_string(),
            rest: segments[1..].iter().map(|s| s.to_string()).collect(),
        },
        text: text.to_string(),
        args,
    }
}

fn get<T>(args: T) -> Attribute<T> {
    attribute(AttrStyle::Outer, &["get"], "#[get(..)]", Ok(args))
}

fn bad<T>(message: &str) -> Attribute<T> {
    attribute(AttrStyle::Outer, &["get"], "#[get(..)]", Err(message.to_string()))
}

fn other<T>(segments: &[&str], text: &str) -> Attribute<T> {
    attribute(AttrStyle::Outer, segments, text, Err("not read".to_string()))
}

fn inner<T>(segments: &[&str], text: &str) -> Attribute<T> {
    attribute(AttrStyle::Inner, segments, text, Err("not read".to_string()))
}

fn value(v: &str) -> Option<NameValue<String>> {
    Some(NameValue { value: v.to_string() })
}

fn list(items: &[&str]) -> Option<NameArgs<Vec<String>>> {
    Some(NameArgs { args: items.iter().map(|s| s.to_string()).collect() })
}

fn on() -> Option<NameArgs<Option<bool>>> {
    Some(NameArgs { args: None })
}

fn off() -> Option<NameArgs<Option<bool>>> {
    Some(NameArgs { args: Some(false) })
}

fn set() -> Flag {
    Flag { set: true }
}

#[test]
fn is_ident_wants_a_single_plain_word() {
    let path = |leading_colon: bool, first: &str, rest: &[&str]| AttrPath {
        leading_colon,
        first: first.to_string(),
        rest: rest.iter().map(|s| s.to_string()).collect(),
    };
    assert!(path(false, "get", &[]).is_ident("get"));
    assert!(!path(false, "get", &[]).is_ident("set"));
    assert!(!path(true, "get", &[]).is_ident("get"));
    assert!(!path(false, "get", &["x"]).is_ident("get"));
    assert!(!path(false, "x", &["get"]).is_ident("get"));
}

#[test]
fn well_known_attribute_names() {
    for name in ["allow", "cfg", "cfg_attr", "deny", "deprecated", "doc", "forbid", "must_use", "warn"] {
        assert!(well_known_attr(name), "{}", name);
    }
    for name in ["inline", "derive", "get", "Doc", "", "rustfmt"] {
        assert!(!well_known_attr(name), "{}", name);
    }
}

#[test]
fn allowed_attribute_names() {
    let names = Some(vec!["rustfmt".to_string(), "clippy".to_string()]);
    assert!(allowed_attr(&names, "clippy"));
    assert!(!allowed_attr(&names, "doc"));
    assert!(!allowed_attr(&None, "clippy"));
    assert!(!allowed_attr(&Some(Vec::new()), "clippy"));
    assert!(contains_string(&vec!["a".to_string()], "a"));
    assert!(!contains_string(&vec!["a".to_string()], "b"));
}

#[test]
fn extract_of_no_attributes_is_empty() {
    let (args, any, kept) = args::extract::<FieldArgs>(Vec::new(), "get", None).unwrap();
    assert!(!any);
    assert!(kept.is_empty());
    assert!(!args.skip);
    assert!(args.vis.is_none() && args.copy.is_none() && args.prefix.is_none() && args.attr.is_none());
}

#[test]
fn extract_hands_on_outer_attributes_of_known_names() {
    let attrs: Vec<Attribute<FieldArgs>> = vec![
        other(&["doc"], "#[doc = \"a\"]"),
        other(&["inline"], "#[inline]"),
        inner(&["allow"], "#![allow(unused)]"),
        other(&["cfg"], "#[cfg(test)]"),
        other(&["rustfmt", "skip"], "#[rustfmt::skip]"),
        other(&["serde"], "#[serde(skip)]"),
        get(FieldArgs::empty()),
        other(&["must_use"], "#[must_use]"),
    ];
    let (_, any, kept) = args::extract(attrs, "get", Some(vec!["serde".to_string()])).unwrap();
    assert!(any);
    assert_eq!(kept, ["#[doc = \"a\"]", "#[cfg(test)]", "#[serde(skip)]", "#[must_use]"]);
}

#[test]
fn extract_reads_only_the_attributes_of_its_name() {
    let attrs: Vec<Attribute<FieldArgs>> = vec![
        attribute(AttrStyle::Outer, &["set"], "#[set(..)]", Ok(FieldArgs { skip: true, ..FieldArgs::empty() })),
        attribute(AttrStyle::Outer, &["get", "x"], "#[get::x]", Ok(FieldArgs { skip: true, ..FieldArgs::empty() })),
        attribute(AttrStyle::Outer, &["doc"], "#[doc]", Ok(FieldArgs { skip: true, ..FieldArgs::empty() })),
    ];
    let (args, any, kept) = args::extract(attrs, "get", None).unwrap();
    assert!(!any);
    assert!(!args.skip);
    assert_eq!(kept, ["#[doc]"]);
}

#[test]
fn the_first_value_of_an_argument_stays() {
    let attrs = vec![
        get(FieldArgs { prefix: value("a"), copy: off(), ..FieldArgs::empty() }),
        get(FieldArgs { prefix: value("b"), suffix: value("s"), copy: on(), ..FieldArgs::empty() }),
        get(FieldArgs { suffix: value("t"), rename: Some(NameArgs { args: "r".to_string() }), ..FieldArgs::empty() }),
    ];
    let (args, any, _) = args::extract(attrs, "get", None).unwrap();
    assert!(any);
    assert_eq!(args.prefix.unwrap().value, "a");
    assert_eq!(args.suffix.unwrap().value, "s");
    assert_eq!(args.copy.unwrap().args, Some(false));
    assert_eq!(args.rename.unwrap().args, "r");
    assert!(args.clone.is_none());
}

#[test]
fn skip_stays_once_it_is_given() {
    let skip = |b: bool| get(FieldArgs { skip: b, ..FieldArgs::empty() });
    assert!(args::extract(vec![skip(false), skip(true)], "get", None).unwrap().0.skip);
    assert!(args::extract(vec![skip(true), skip(false)], "get", None).unwrap().0.skip);
    assert!(!args::extract(vec![skip(false), skip(false)], "get", None).unwrap().0.skip);
    let set_skip = |b: bool| {
        attribute(
            AttrStyle::Outer,
            &["set"],
            "#[set(..)]",
            Ok(setter::FieldArgs { skip: b, ..setter::FieldArgs::empty() }),
        )
    };
    assert!(args::extract(vec![set_skip(false), set_skip(true)], "set", None).unwrap().0.skip);
}

#[test]
fn flags_of_the_structure_add_up() {
    let attrs = vec![
        get(StructArgs { copy: set(), vis: Some(NameArgs { args: None }), ..StructArgs::empty() }),
        get(StructArgs {
            mutable: set(),
            vis: Some(NameArgs { args: Some(Restricted::PubCrate) }),
            ..StructArgs::empty()
        }),
    ];
    let (args, any, kept) = args::extract(attrs, "get", None).unwrap();
    assert!(any && kept.is_empty());
    assert!(args.copy.set && args.mutable.set);
    assert!(!args.clone.set && !args.constness.set && !args.bytes.set);
    assert!(args.vis.unwrap().args.is_none());
}

#[test]
fn lists_are_joined_in_order() {
    let attrs = vec![
        get(StructArgs { attrs: list(&["a", "b"]), ..StructArgs::empty() }),
        get(StructArgs::empty()),
        get(StructArgs { attrs: list(&["c"]), ..StructArgs::empty() }),
    ];
    let (args, _, _) = args::extract(attrs, "get", None).unwrap();
    assert_eq!(args.allowed_attrs(), Some(vec!["a".to_string(), "b".to_string(), "c".to_string()]));
    assert_eq!(StructArgs::empty().allowed_attrs(), None);
}

#[test]
fn merged_takes_what_is_missing() {
    let first = FieldArgs { slice: Some(NameArgs { args: None }), attr: list(&["a"]), ..FieldArgs::empty() };
    let second = FieldArgs {
        slice: Some(NameArgs { args: Some(ExprPath { text: "f".to_string() }) }),
        bytes: Some(NameArgs { args: Some(ExprPath { text: "g".to_string() }) }),
        attr: list(&["b"]),
        ..FieldArgs::empty()
    };
    let merged = first.merged(second);
    assert!(merged.slice_path().is_none());
    assert_eq!(merged.bytes_path().unwrap().text, "g");
    assert!(merged.str_path().is_none() && merged.mut_str_path().is_none());
    assert!(merged.mut_slice_path().is_none());
    assert!(merged.borrow_ty().is_none() && merged.borrow_mut_ty().is_none());
    assert_eq!(merged.attr.unwrap().args, ["a", "b"]);
}

#[test]
fn extract_fails_at_the_first_faulty_attribute() {
    let attrs: Vec<Attribute<FieldArgs>> = vec![
        other(&["doc"], "#[doc]"),
        get(FieldArgs::empty()),
        bad("first"),
        bad("second"),
    ];
    let error = args::extract(attrs, "get", None).unwrap_err();
    assert_eq!(error, Error::InvalidAttribute { name: "get", index: 2, message: "first".to_string() });
    assert_eq!(error.message(), "invalid #[get(..)] attribute, first");
    assert_eq!(error.span(), Span::Attribute { index: 2 });
}

#[test]
fn faulty_arguments_under_another_name_do_no_harm() {
    let attrs: Vec<Attribute<FieldArgs>> = vec![bad("first")];
    let (_, any, kept) = args::extract(attrs, "set", None).unwrap();
    assert!(!any);
    assert!(kept.is_empty());
}

#[test]
fn the_strict_reading_hands_on_every_outer_attribute() {
    let attrs: Vec<Attribute<FieldArgs>> = vec![
        other(&["doc"], "#[doc = \"a\"]"),
        other(&["inline"], "#[inline]"),
        inner(&["allow"], "#![allow(unused)]"),
        get(FieldArgs { skip: true, ..FieldArgs::empty() }),
        other(&["serde"], "#[serde(skip)]"),
    ];
    let (args, kept) = extract::args(attrs, "get").unwrap();
    assert!(args.skip);
    assert_eq!(kept, ["#[doc = \"a\"]", "#[inline]", "#[serde(skip)]"]);

    let attrs: Vec<Attribute<FieldArgs>> = vec![other(&["doc"], "#[doc]"), bad("no")];
    assert_eq!(
        extract::args(attrs, "get").unwrap_err(),
        Error::InvalidAttribute { name: "get", index: 1, message: "no".to_string() }
    );
}

#[test]
fn metas_are_wrapped_as_attributes() {
    let mut attrs = vec!["#[doc]".to_string()];
    push_metas(&mut attrs, &list(&["rustfmt::skip", "allow(unused)"]));
    assert_eq!(attrs, ["#[doc]", "#[rustfmt::skip]", "#[allow(unused)]"]);
    push_metas(&mut attrs, &None);
    assert_eq!(attrs.len(), 3);
    push_metas(&mut attrs, &list(&[]));
    assert_eq!(attrs.len(), 3);
}

fn sample(n: usize) -> FieldArgs {
    match n {
        0 => FieldArgs { prefix: value("a"), copy: on(), attr: list(&["x"]), ..FieldArgs::empty() },
        1 => FieldArgs {
            prefix: value("b"),
            suffix: value("s"),
            skip: true,
            attr: list(&["y", "z"]),
            ..FieldArgs::empty()
        },
        _ => FieldArgs { suffix: value("t"), copy: off(), clone: on(), ..FieldArgs::empty() },
    }
}

fn shown(args: &FieldArgs) -> String {
    format!("{:?}", args)
}

#[test]
fn taking_in_nothing_changes_nothing() {
    for n in 0..3 {
        assert_eq!(shown(&sample(n).merged(FieldArgs::empty())), shown(&sample(n)));
        assert_eq!(shown(&FieldArgs::empty().merged(sample(n))), shown(&sample(n)));
    }
}

#[test]
fn taking_in_does_not_depend_on_the_grouping() {
    let left = sample(0).merged(sample(1)).merged(sample(2));
    let right = sample(0).merged(sample(1).merged(sample(2)));
    assert_eq!(shown(&left), shown(&right));
    assert_eq!(left.prefix.unwrap().value, "a");
    assert_eq!(left.suffix.unwrap().value, "s");
    assert_eq!(left.attr.unwrap().args, ["x", "y", "z"]);
    assert!(left.skip);
}

#[test]
fn two_lists_read_in_a_row() {
    let first = || vec![other(&["doc"], "#[doc = \"a\"]"), get(sample(0)), get(sample(1))];
    let second = || vec![get(sample(2)), other(&["cfg"], "#[cfg(test)]")];
    let mut both = first();
    both.extend(second());
    let (all, _, kept) = args::extract(both, "get", None).unwrap();
    let (a, _, kept_a) = args::extract(first(), "get", None).unwrap();
    let (b, _, kept_b) = args::extract(second(), "get", None).unwrap();
    assert_eq!(shown(&all), shown(&a.merged(b)));
    assert_eq!(kept, [kept_a, kept_b].concat());
}
