//! Small syntactic heuristics that ride along with the synthesis engine:
//! spotting test-related attributes on a function, and the special-cased
//! getter types for fields of container type.

use vstd::prelude::*;
use vstd::string::*;
use crate::model::AttrData;
use crate::strutil::{clone_opt_string, seq_ends_with, seq_starts_with, str_ends_with, str_eq,
    str_starts_with};

verus! {

/// Whether an attribute marks a test: its path text starts or ends with
/// `test`. A heuristic: it covers custom test annotations and may produce
/// false positives.
pub open spec fn attr_is_test_related(a: AttrData) -> bool {
    match a.path {
        Some(p) => seq_starts_with(p@, "test"@) || seq_ends_with(p@, "test"@),
        None => false,
    }
}

/// Whether position `k` holds the first test-related attribute.
pub open spec fn first_test_attr_at(attrs: Seq<AttrData>, k: int) -> bool {
    &&& 0 <= k < attrs.len()
    &&& attr_is_test_related(attrs[k])
    &&& forall|j: int| 0 <= j < k ==> !attr_is_test_related(attrs[j])
}

/// A copy of an attribute, equal to the original.
pub fn clone_attr(a: &AttrData) -> (r: AttrData)
    ensures
        r == *a,
{
    AttrData {
        text: a.text.clone(),
        path: clone_opt_string(&a.path),
        simple_call_name: clone_opt_string(&a.simple_call_name),
    }
}

/// Finds the first attribute of a function that looks test-related, i.e.
/// whose path text starts or ends with `test`.
pub fn test_related_attribute(attrs: &Vec<AttrData>) -> (r: Option<AttrData>)
    ensures
        match r {
            Some(a) => exists|k: int| first_test_attr_at(attrs@, k) && a == attrs@[k],
            None => forall|k: int| 0 <= k < attrs@.len() ==> !attr_is_test_related(attrs@[k]),
        },
{
    let mut i: usize = 0;
    while i < attrs.len()
        invariant
            i <= attrs@.len(),
            forall|j: int| 0 <= j < i ==> !attr_is_test_related(attrs@[j]),
        decreases attrs@.len() - i,
    {
        let a = &attrs[i];
        let found = match &a.path {
            Some(p) => str_starts_with(p.as_str(), "test") || str_ends_with(p.as_str(), "test"),
            None => false,
        };
        if found {
            let copied = clone_attr(a);
            proof {
                assert(first_test_attr_at(attrs@, i as int));
            }
            return Some(copied);
        }
        i += 1;
    }
    None
}

/// What stripping `ctor` + `<` in front and `>` behind leaves of a type
/// text, when all three are there.
pub open spec fn ty_ctor_arg(ty: Seq<char>, ctor: Seq<char>) -> Option<Seq<char>> {
    if ty.len() >= ctor.len() + 2 && seq_starts_with(ty, ctor) && ty[ctor.len() as int] == '<'
        && ty.last() == '>' {
        Some(ty.subrange(ctor.len() as int + 1, ty.len() as int - 1))
    } else {
        None
    }
}

/// Strips a constructor name and its angle brackets off a type text:
/// `Vec<Foo>` with constructor `Vec` yields `Foo`.
pub fn ty_ctor(ty: &String, ctor: &str) -> (r: Option<String>)
    ensures
        r is Some <==> ty_ctor_arg(ty@, ctor@) is Some,
        r matches Some(arg) ==> arg@ == ty_ctor_arg(ty@, ctor@)->Some_0,
{
    let t = ty.as_str();
    let n = t.unicode_len();
    let m = ctor.unicode_len();
    if n < 2 || m > n - 2 {
        return None;
    }
    if !str_starts_with(t, ctor) {
        return None;
    }
    if t.get_char(m) != '<' {
        return None;
    }
    if t.get_char(n - 1) != '>' {
        return None;
    }
    let arg = t.substring_char(m + 1, n - 1);
    Some(String::from_str(arg))
}

/// The borrowed type and accessor expression a getter should use for a
/// field, when the field's declared type has a cheaper borrowed form:
/// `String` becomes `&str`, `Vec<T>` a slice, `Box<T>` a plain reference,
/// `Option<T>` an `Option` of a reference; anything else is left alone.
pub open spec fn useless_type_replacement(field_name: Seq<char>, field_ty: Seq<char>) -> Option<
    (Seq<char>, Seq<char>),
> {
    if field_ty == "String"@ {
        Some(("&str"@, "self."@ + field_name + ".as_str()"@))
    } else if ty_ctor_arg(field_ty, "Vec"@) is Some {
        Some(
            (
                "&["@ + ty_ctor_arg(field_ty, "Vec"@)->Some_0 + "]"@,
                "self."@ + field_name + ".as_slice()"@,
            ),
        )
    } else if ty_ctor_arg(field_ty, "Box"@) is Some {
        Some(
            ("&"@ + ty_ctor_arg(field_ty, "Box"@)->Some_0, "self."@ + field_name + ".as_ref()"@),
        )
    } else if ty_ctor_arg(field_ty, "Option"@) is Some {
        Some(
            (
                "Option<&"@ + ty_ctor_arg(field_ty, "Option"@)->Some_0 + ">"@,
                "self."@ + field_name + ".as_ref()"@,
            ),
        )
    } else {
        None
    }
}

/// Computes the borrowed getter type and accessor expression for a field,
/// or nothing when the field's type has no special-cased borrowed form.
pub fn useless_type_special_case(field_name: &str, field_ty: &String) -> (r: Option<
    (String, String),
>)
    ensures
        r is Some <==> useless_type_replacement(field_name@, field_ty@) is Some,
        r matches Some(p) ==> ({
            let q = useless_type_replacement(field_name@, field_ty@)->Some_0;
            p.0@ == q.0 && p.1@ == q.1
        }),
{
    if str_eq(field_ty.as_str(), "String") {
        let mut expr = String::new();
        expr.append("self.");
        expr.append(field_name);
        expr.append(".as_str()");
        return Some((String::from_str("&str"), expr));
    }
    match ty_ctor(field_ty, "Vec") {
        Some(arg) => {
            let mut borrowed = String::new();
            borrowed.append("&[");
            borrowed.append(arg.as_str());
            borrowed.append("]");
            let mut expr = String::new();
            expr.append("self.");
            expr.append(field_name);
            expr.append(".as_slice()");
            return Some((borrowed, expr));
        },
        None => {},
    }
    match ty_ctor(field_ty, "Box") {
        Some(arg) => {
            let mut borrowed = String::new();
            borrowed.append("&");
            borrowed.append(arg.as_str());
            let mut expr = String::new();
            expr.append("self.");
            expr.append(field_name);
            expr.append(".as_ref()");
            return Some((borrowed, expr));
        },
        None => {},
    }
    match ty_ctor(field_ty, "Option") {
        Some(arg) => {
            let mut borrowed = String::new();
            borrowed.append("Option<&");
            borrowed.append(arg.as_str());
            borrowed.append(">");
            let mut expr = String::new();
            expr.append("self.");
            expr.append(field_name);
            expr.append(".as_ref()");
            return Some((borrowed, expr));
        },
        None => {},
    }
    None
}

} // verus!
