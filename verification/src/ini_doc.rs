use vstd::prelude::*;

verus! {

#[verifier::external_type_specification]
#[verifier::external_body]
pub struct ExIni(ini::Ini);

/// Image of an ini-format document: section name and key to value.
pub type IniDocView = Map<(Seq<char>, Seq<char>), Seq<char>>;

/// What an ini-format document holds: for a section name and a key, the
/// value that a lookup of that key in that section returns.
pub uninterp spec fn ini_doc(i: ini::Ini) -> Map<(Seq<char>, Seq<char>), Seq<char>>;

/// The empty document image.
pub open spec fn ini_doc_empty() -> IniDocView {
    Map::empty()
}

/// Relies on ini::Ini::new: a fresh document has no sections and no values.
#[verifier::external_body]
pub(crate) fn ini_empty() -> (r: ini::Ini)
    ensures
        ini_doc(r) == ini_doc_empty(),
{
    ini::Ini::new()
}

/// Relies on ini::Ini::section and ini::Properties::get: the first value
/// stored under `key` in the first section named `section`, if any.
#[verifier::external_body]
pub(crate) fn ini_get(doc: &ini::Ini, section: &str, key: &str) -> (r: Option<String>)
    ensures
        r is Some <==> ini_doc(*doc).contains_key((section@, key@)),
        r matches Some(v) ==> v@ == ini_doc(*doc)[(section@, key@)],
{
    doc.section(Some(section)).and_then(|p| p.get(key)).map(|v| v.to_string())
}

/// Relies on ini::SectionSetter::set (ini::Properties::insert): replaces
/// every value stored under `key` in the section named `section`, creating
/// the section first if it is absent.
#[verifier::external_body]
pub(crate) fn ini_set(doc: &mut ini::Ini, section: &str, key: &str, value: &str)
    ensures
        ini_doc(*final(doc)) == ini_doc(*old(doc)).insert((section@, key@), value@),
{
    doc.with_section(Some(section)).set(key, value);
}

/// Relies on ini::SectionSetter::delete (ini::Properties::remove): removes
/// every value stored under `key` from every section named `section`.
#[verifier::external_body]
pub(crate) fn ini_delete(doc: &mut ini::Ini, section: &str, key: &str)
    ensures
        ini_doc(*final(doc)) == ini_doc(*old(doc)).remove((section@, key@)),
{
    doc.with_section(Some(section)).delete(&key);
}

} // verus!
