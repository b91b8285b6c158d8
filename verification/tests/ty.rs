use getset2::extract;
use getset2::ty::{
    contains_name, generic_args_ty, str_eq, GenericArgument, PathArguments, PathSegment, Type,
    TypeExt, TypeKind,
};

fn path(text: &str, qself: bool, last: &str, arguments: PathArguments) -> Type {
    Type {
        text: text.to_string(),
        kind: TypeKind::Path {
            qself,
            last: Some(PathSegment { ident: last.to_string(), arguments }),
        },
    }
}

fn plain(name: &str) -> Type {
    path(name, false, name, PathArguments::Empty)
}

fn generic(name: &str, args: Vec<GenericArgument>) -> Type {
    path(&format!("{}<..>", name), false, name, PathArguments::AngleBracketed { args })
}

fn of(ty: Type) -> GenericArgument {
    GenericArgument::Type(ty)
}

fn reference(elem: Type) -> Type {
    Type { text: format!("& {}", elem.text), kind: TypeKind::Reference { elem: Box::new(elem) } }
}

fn array(elem: Type) -> Type {
    Type { text: format!("[{}; 4]", elem.text), kind: TypeKind::Array { elem: Box::new(elem) } }
}

fn tuple() -> Type {
    Type { text: "(u8, u8)".to_string(), kind: TypeKind::Other }
}

fn texts(types: Vec<&Type>) -> Vec<&str> {
    types.into_iter().map(|t| t.text.as_str()).collect()
}

#[test]
fn str_eq_compares_the_characters() {
    assert!(str_eq("Option", "Option"));
    assert!(!str_eq("Option", "option"));
    assert!(!str_eq("Vec", "VecDeque"));
    assert!(str_eq("", ""));
}

#[test]
fn contains_name_looks_through_the_list() {
    assert!(contains_name(&["Vec", "VecDeque"], "VecDeque"));
    assert!(!contains_name(&["Vec", "VecDeque"], "HashSet"));
    assert!(!contains_name(&[], "Vec"));
}

#[test]
fn is_ty_looks_at_the_last_segment() {
    assert!(plain("String").is_ty("String"));
    assert!(path("std::string::String", false, "String", PathArguments::Empty).is_ty("String"));
    assert!(!plain("String").is_ty("str"));
    assert!(generic("Vec", vec![of(plain("u8"))]).is_ty("Vec"));
}

#[test]
fn is_ty_refuses_a_qualified_self_type() {
    assert!(!path("<T as Trait>::String", true, "String", PathArguments::Empty).is_ty("String"));
}

#[test]
fn is_ty_refuses_what_is_no_path() {
    assert!(!reference(plain("String")).is_ty("String"));
    assert!(!array(plain("u8")).is_ty("u8"));
    assert!(!tuple().is_ty("u8"));
    let empty = Type { text: String::new(), kind: TypeKind::Path { qself: false, last: None } };
    assert!(!empty.is_ty(""));
}

#[test]
fn is_ref_ty_looks_behind_one_reference() {
    assert!(reference(plain("str")).is_ref_ty("str"));
    assert!(!plain("str").is_ref_ty("str"));
    assert!(!reference(reference(plain("str"))).is_ref_ty("str"));
}

#[test]
fn string_questions() {
    assert!(plain("String").is_string());
    assert!(!reference(plain("String")).is_string());
    assert!(reference(plain("String")).is_ref_string());
    assert!(!plain("String").is_ref_string());
    assert!(reference(plain("str")).is_str());
    assert!(!reference(plain("String")).is_str());
}

#[test]
fn ref_elem_ty_is_the_type_behind_the_reference() {
    assert_eq!(reference(plain("usize")).ref_elem_ty().unwrap().text, "usize");
    assert!(plain("usize").ref_elem_ty().is_none());
    assert!(array(plain("usize")).ref_elem_ty().is_none());
}

#[test]
fn array_elem_ty_is_the_type_of_the_elements() {
    assert_eq!(array(plain("u8")).array_elem_ty().unwrap().text, "u8");
    assert!(plain("u8").array_elem_ty().is_none());
    assert!(generic("Vec", vec![of(plain("u8"))]).array_elem_ty().is_none());
}

#[test]
fn generic_args_ty_keeps_the_type_arguments_in_order() {
    let map = generic(
        "HashMap",
        vec![GenericArgument::Other, of(plain("K")), GenericArgument::Other, of(plain("V"))],
    );
    assert_eq!(texts(generic_args_ty(&map, &["HashMap", "BTreeMap"]).unwrap()), ["K", "V"]);
    assert!(generic_args_ty(&map, &["Vec"]).is_none());
    assert!(generic_args_ty(&map, &[]).is_none());
}

#[test]
fn generic_args_ty_wants_angle_brackets() {
    assert!(generic_args_ty(&plain("Vec"), &["Vec"]).is_none());
    let call = path("Fn(u8)", false, "Fn", PathArguments::Parenthesized);
    assert!(generic_args_ty(&call, &["Fn"]).is_none());
    let no_types = generic("Vec", vec![GenericArgument::Other]);
    assert!(generic_args_ty(&no_types, &["Vec"]).unwrap().is_empty());
}

#[test]
fn generic_args_ty_refuses_other_forms() {
    let qualified = path(
        "<T as Trait>::Vec<u8>",
        true,
        "Vec",
        PathArguments::AngleBracketed { args: vec![of(plain("u8"))] },
    );
    assert!(generic_args_ty(&qualified, &["Vec"]).is_none());
    assert!(generic_args_ty(&reference(generic("Vec", vec![of(plain("u8"))])), &["Vec"]).is_none());
}

#[test]
fn inner_ty_is_the_first_type_argument() {
    let option = generic("Option", vec![of(plain("usize"))]);
    assert_eq!(option.inner_ty("Option").unwrap().text, "usize");
    assert_eq!(option.option_inner_ty().unwrap().text, "usize");
    assert!(option.inner_ty("Vec").is_none());
    let after_lifetime = generic("Cow", vec![GenericArgument::Other, of(plain("str"))]);
    assert_eq!(after_lifetime.inner_ty("Cow").unwrap().text, "str");
    assert!(generic("Option", vec![]).option_inner_ty().is_none());
    assert!(plain("Option").option_inner_ty().is_none());
}

#[test]
fn slice_inner_ty_takes_a_vec_or_an_array() {
    assert_eq!(generic("Vec", vec![of(plain("u8"))]).slice_inner_ty().unwrap().text, "u8");
    assert_eq!(array(plain("u16")).slice_inner_ty().unwrap().text, "u16");
    assert!(generic("VecDeque", vec![of(plain("u8"))]).slice_inner_ty().is_none());
    assert!(reference(array(plain("u8"))).slice_inner_ty().is_none());
}

#[test]
fn the_strict_readings_want_exactly_one_argument() {
    let option = generic("Option", vec![of(plain("usize"))]);
    assert_eq!(extract::option_inner_ty(&option).unwrap().text, "usize");
    let two = generic("Option", vec![of(plain("A")), of(plain("B"))]);
    assert!(extract::option_inner_ty(&two).is_none());
    assert_eq!(two.option_inner_ty().unwrap().text, "A");
    let lifetime = generic("Option", vec![GenericArgument::Other]);
    assert!(extract::option_inner_ty(&lifetime).is_none());
    assert!(extract::option_inner_ty(&generic("Vec", vec![of(plain("u8"))])).is_none());

    assert_eq!(extract::slice_inner_ty(&generic("Vec", vec![of(plain("u8"))])).unwrap().text, "u8");
    assert_eq!(extract::slice_inner_ty(&array(plain("u8"))).unwrap().text, "u8");
    assert!(extract::slice_inner_ty(&generic("Vec", vec![])).is_none());
    assert!(extract::slice_inner_ty(&plain("u8")).is_none());
}

#[test]
fn the_strict_questions_about_strings() {
    assert!(extract::is_string_ty(&plain("String")));
    assert!(!extract::is_string_ty(&plain("CString")));
    assert!(extract::is_str_ty(&reference(plain("str"))));
    assert!(!extract::is_str_ty(&plain("str")));
    assert!(extract::is_cstring_ty(&plain("CString")));
    assert!(extract::is_cstr_ty(&reference(plain("CStr"))));
    assert!(!extract::is_cstr_ty(&reference(plain("CString"))));
    assert!(extract::is_ty(&plain("u8"), "u8"));
    assert!(extract::is_ref_ty(&reference(plain("u8")), "u8"));
    assert!(!extract::is_ref_ty(&array(plain("u8")), "u8"));
}
