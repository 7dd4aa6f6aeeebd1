//! Reading the lint schema out of TOML text.
//!
//! The `toml` crate turns the text into a table of values; everything after
//! that — which keys are read, that absent keys mean empty lists, that a
//! present key must hold an array of strings, that unknown keys are
//! ignored — is this crate's own, verified logic.

use vstd::prelude::*;

verus! {

#[verifier::external_type_specification]
#[verifier::external_body]
#[verifier::reject_recursive_types(K)]
#[verifier::reject_recursive_types(V)]
pub struct ExTomlMap<K, V>(toml::map::Map<K, V>);

#[verifier::external_type_specification]
#[verifier::external_body]
pub struct ExTomlValue(toml::Value);

#[verifier::external_type_specification]
#[verifier::external_body]
pub struct ExTomlDeError(toml::de::Error);

/// The string a TOML value holds, when it holds one.
pub uninterp spec fn str_of(v: toml::Value) -> Option<Seq<char>>;

/// A TOML value read as a list of strings: the contents of an array whose
/// elements are all strings, and nothing otherwise.
pub uninterp spec fn string_list_of(v: toml::Value) -> Option<Seq<Seq<char>>>;

/// A sequence of TOML values read as a list of strings: defined exactly
/// when every element holds a string.
pub open spec fn strings_of_values(vals: Seq<toml::Value>) -> Option<Seq<Seq<char>>> {
    if forall|i: int| 0 <= i < vals.len() ==> str_of(#[trigger] vals[i]) is Some {
        Some(Seq::new(vals.len(), |i: int| str_of(vals[i]).unwrap()))
    } else {
        None
    }
}

/// What a parsed TOML table holds, read at the level of the lint schema:
/// for each top-level key that is present, the string list of its value.
pub uninterp spec fn table_lists(t: toml::map::Map<String, toml::Value>) -> Map<
    Seq<char>,
    Option<Seq<Seq<char>>>,
>;

/// What a TOML document holds at its top level, read at the level of the
/// lint schema; `None` when the text is not valid TOML.
pub uninterp spec fn doc_lists(s: Seq<char>) -> Option<Map<Seq<char>, Option<Seq<Seq<char>>>>>;

/// Relies on `toml::from_str` into `toml::Table`: parsing is a function of
/// the text alone, succeeds exactly on valid TOML documents, and the table
/// it returns holds the document's top-level entries.
#[verifier::external_body]
pub(crate) fn parse_table(s: &str) -> (r: Result<toml::map::Map<String, toml::Value>, toml::de::Error>)
    ensures
        r is Ok <==> doc_lists(s@) is Some,
        r matches Ok(t) ==> doc_lists(s@) == Some(table_lists(t)),
{
    toml::from_str::<toml::Table>(s)
}

/// Relies on `toml::de::Error::message`: a human-readable description of
/// what went wrong while parsing.
#[verifier::external_body]
pub(crate) fn parse_error_message(e: &toml::de::Error) -> (r: String)
{
    e.message().to_owned()
}

/// Relies on `toml::map::Map::get`: returns the value stored at the key
/// exactly when the key is present in the table.
#[verifier::external_body]
fn table_get<'a>(t: &'a toml::map::Map<String, toml::Value>, key: &str) -> (r: Option<
    &'a toml::Value,
>)
    ensures
        match r {
            Some(v) => table_lists(*t).dom().contains(key@) && table_lists(*t)[key@]
                == string_list_of(*v),
            None => !table_lists(*t).dom().contains(key@),
        },
{
    t.get(key)
}

/// Relies on `toml::Value::as_array`: returns the element vector exactly
/// when the value is a TOML array, so the value reads as a string list
/// exactly as its elements do.
#[verifier::external_body]
fn value_as_array<'a>(v: &'a toml::Value) -> (r: Option<&'a Vec<toml::Value>>)
    ensures
        match r {
            Some(a) => string_list_of(*v) == strings_of_values(a@),
            None => string_list_of(*v) is None,
        },
{
    v.as_array()
}

/// Relies on `toml::Value::as_str`: returns the string exactly when the
/// value is a TOML string.
#[verifier::external_body]
fn value_as_str<'a>(v: &'a toml::Value) -> (r: Option<&'a str>)
    ensures
        match r {
            Some(s) => str_of(*v) == Some(s@),
            None => str_of(*v) is None,
        },
{
    v.as_str()
}

/// One category's list under the schema: an absent key is an empty list, a
/// present key must hold an array of strings, and anything else is invalid.
pub open spec fn spec_category_list(
    m: Map<Seq<char>, Option<Seq<Seq<char>>>>,
    key: Seq<char>,
) -> Option<Seq<Seq<char>>> {
    if m.dom().contains(key) {
        m[key]
    } else {
        Some(Seq::empty())
    }
}

/// Reads one category key out of a parsed table, following
/// [`spec_category_list`]: `None` reports a schema violation.
pub(crate) fn extract_list(t: &toml::map::Map<String, toml::Value>, key: &str) -> (r: Option<
    Vec<String>,
>)
    ensures
        match r {
            Some(l) => spec_category_list(table_lists(*t), key@) == Some(l.deep_view()),
            None => spec_category_list(table_lists(*t), key@) is None,
        },
{
    match table_get(t, key) {
        None => {
            let l: Vec<String> = Vec::new();
            proof {
                assert(l.deep_view() =~= Seq::<Seq<char>>::empty());
            }
            Some(l)
        },
        Some(v) => match value_as_array(v) {
            None => None,
            Some(arr) => {
                let mut out: Vec<String> = Vec::new();
                let mut i: usize = 0;
                while i < arr.len()
                    invariant
                        i <= arr.len(),
                        string_list_of(*v) == strings_of_values(arr@),
                        table_lists(*t).dom().contains(key@),
                        table_lists(*t)[key@] == string_list_of(*v),
                        out.deep_view().len() == i,
                        forall|j: int| 0 <= j < i ==> str_of(#[trigger] arr@[j]) is Some,
                        forall|j: int|
                            0 <= j < i ==> out.deep_view()[j] == str_of(#[trigger] arr@[j]).unwrap(),
                    decreases arr.len() - i,
                {
                    match value_as_str(&arr[i]) {
                        None => {
                            proof {
                                assert(str_of(arr@[i as int]) is None);
                                assert(strings_of_values(arr@) is None);
                            }
                            return None;
                        },
                        Some(s) => {
                            let ghost pre = out.deep_view();
                            out.push(s.to_owned());
                            proof {
                                assert(out.deep_view() =~= pre.push(s@));
                            }
                        },
                    }
                    i = i + 1;
                }
                proof {
                    assert(strings_of_values(arr@) == Some(out.deep_view())) by {
                        assert(strings_of_values(arr@) matches Some(sl) && sl =~= out.deep_view());
                    }
                }
                Some(out)
            },
        },
    }
}

} // verus!
