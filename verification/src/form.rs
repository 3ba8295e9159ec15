use vstd::prelude::*;
use reqwest::multipart::Form;

verus! {

/// `reqwest::multipart::Form`, carried through as an opaque value.
#[verifier::external_type_specification]
#[verifier::external_body]
pub struct ExForm(reqwest::multipart::Form);

/// The text fields of a multipart form, as name and value, in the order in
/// which they were added.
pub uninterp spec fn form_fields(form: Form) -> Seq<(Seq<char>, Seq<char>)>;

/// `reqwest::multipart::Form::new`: a form without any field.
#[verifier::external_body]
pub(crate) fn form_new() -> (r: Form)
    ensures
        form_fields(r) == Seq::<(Seq<char>, Seq<char>)>::empty(),
{
    Form::new()
}

/// `reqwest::multipart::Form::text`: the same form with one more text field,
/// of the given name and value, after those it had.
#[verifier::external_body]
pub(crate) fn form_text(form: Form, name: String, value: String) -> (r: Form)
    ensures
        form_fields(r) == form_fields(form).push((name@, value@)),
{
    form.text(name, value)
}

/// Names and values of a field list as plain texts.
pub open spec fn pairs_view(fields: Seq<(String, String)>) -> Seq<(Seq<char>, Seq<char>)> {
    Seq::new(fields.len(), |i: int| (fields[i].0@, fields[i].1@))
}

/// Builds the multipart form that holds the given fields, in their order.
pub fn form_of(fields: &Vec<(String, String)>) -> (r: Form)
    ensures
        form_fields(r) == pairs_view(fields@),
{
    let mut form = form_new();
    let mut i: usize = 0;
    while i < fields.len()
        invariant
            i <= fields.len(),
            form_fields(form) == pairs_view(fields@.take(i as int)),
        decreases fields.len() - i,
    {
        proof {
            assert(pairs_view(fields@.take(i + 1)) =~= pairs_view(fields@.take(i as int)).push(
                (fields[i as int].0@, fields[i as int].1@),
            ));
        }
        form = form_text(form, fields[i].0.clone(), fields[i].1.clone());
        i += 1;
    }
    proof {
        assert(fields@.take(i as int) =~= fields@);
    }
    form
}

/// A field that is sent only where it has a value.
pub open spec fn opt_field(name: Seq<char>, value: Option<Seq<char>>) -> Seq<(Seq<char>, Seq<char>)> {
    match value {
        Some(v) => seq![(name, v)],
        None => Seq::empty(),
    }
}

/// How a flag is written in a form.
pub open spec fn flag_text(flag: bool) -> Seq<char> {
    if flag {
        "1"@
    } else {
        "0"@
    }
}

/// Appends one field.
pub fn push_field(fields: &mut Vec<(String, String)>, name: &str, value: String)
    ensures
        pairs_view(final(fields)@) == pairs_view(old(fields)@).push((name@, value@)),
{
    fields.push((name.to_owned(), value));
    proof {
        assert(pairs_view(fields@) =~= pairs_view(old(fields)@).push((name@, value@)));
    }
}

/// Appends a field where it has a value, and nothing where it has none.
pub fn push_opt_field(fields: &mut Vec<(String, String)>, name: &str, value: &Option<String>)
    ensures
        pairs_view(final(fields)@) == pairs_view(old(fields)@) + opt_field(
            name@,
            crate::error::opt_text(*value),
        ),
{
    match value {
        Some(v) => {
            push_field(fields, name, v.clone());
            proof {
                assert(pairs_view(fields@) =~= pairs_view(old(fields)@) + opt_field(
                    name@,
                    crate::error::opt_text(*value),
                ));
            }
        },
        None => {
            proof {
                assert(pairs_view(fields@) =~= pairs_view(old(fields)@) + opt_field(
                    name@,
                    crate::error::opt_text(*value),
                ));
            }
        },
    }
}

/// How a truth value is written in a task description.
pub open spec fn bool_text(value: bool) -> Seq<char> {
    if value {
        "true"@
    } else {
        "false"@
    }
}

/// The text of an optional truth value.
pub open spec fn opt_bool_text(value: Option<bool>) -> Option<Seq<char>> {
    match value {
        Some(v) => Some(bool_text(v)),
        None => None,
    }
}

/// Writes a truth value as text.
pub fn bool_string(value: bool) -> (r: String)
    ensures
        r@ == bool_text(value),
{
    if value {
        "true".to_owned()
    } else {
        "false".to_owned()
    }
}

/// Writes an optional truth value as text.
pub fn opt_bool_string(value: Option<bool>) -> (r: Option<String>)
    ensures
        crate::error::opt_text(r) == opt_bool_text(value),
{
    match value {
        Some(v) => Some(bool_string(v)),
        None => None,
    }
}

/// The fields with which every task description begins: the key, the
/// integration's own number, and the tag of the captcha kind.
pub open spec fn task_head(api_key: Seq<char>, tag: Seq<char>) -> Seq<(Seq<char>, Seq<char>)> {
    Seq::<(Seq<char>, Seq<char>)>::empty().push(("clientKey"@, api_key)).push(
        ("softId"@, "4143"@),
    ).push(("type"@, tag))
}

/// Starts the field list of a task description.
pub fn start_task_fields(api_key: String, tag: String) -> (r: Vec<(String, String)>)
    ensures
        pairs_view(r@) == task_head(api_key@, tag@),
{
    let mut fields: Vec<(String, String)> = Vec::new();
    proof {
        assert(pairs_view(fields@) =~= Seq::<(Seq<char>, Seq<char>)>::empty());
    }
    push_field(&mut fields, "clientKey", api_key);
    push_field(&mut fields, "softId", "4143".to_owned());
    push_field(&mut fields, "type", tag);
    fields
}

} // verus!
