//! `pyproject.toml` documents parsed and edited with `toml_edit`, which keeps the formatting
//! and comments of what it does not touch. Tables are reached by their keys: a table at the
//! root of the document (`outer`) and a table inside it (`inner`).
use toml_edit::DocumentMut;
use vstd::prelude::*;

verus! {

#[verifier::external_type_specification]
#[verifier::external_body]
pub struct ExDocumentMut(DocumentMut);

/// Whether the item under `key` at the root of the document is a table (not an inline table).
pub uninterp spec fn table_at(doc: DocumentMut, key: Seq<char>) -> bool;

/// Whether the item under `outer` is a table that holds an item, of any kind, under `inner`.
pub uninterp spec fn holds_entry(doc: DocumentMut, outer: Seq<char>, inner: Seq<char>) -> bool;

/// The keys of the table at `outer.inner`, in document order, as `Table::iter` yields them,
/// when the items under `outer` and `outer.inner` are both tables; `None` otherwise.
pub uninterp spec fn subtable_keys(doc: DocumentMut, outer: Seq<char>, inner: Seq<char>) -> Option<
    Seq<Seq<char>>,
>;

/// The entries of the table at `outer.inner` when the items under `outer` and `outer.inner`
/// are both tables (empty otherwise): each key that `Table::iter` yields mapped to the
/// rendering of its entry, that is of the key and of the item under it, with their decorations
/// and comments.
pub uninterp spec fn subtable_entries(doc: DocumentMut, outer: Seq<char>, inner: Seq<char>) -> Map<
    Seq<char>,
    Seq<char>,
>;

/// What the document holds apart from the `inner` entry of its `outer` table: the text
/// (`Display`) of the document once that entry is taken out of `outer` with `Table::remove`,
/// and the document's own text when the item under `outer` is not a table.
pub uninterp spec fn text_without_entry(doc: DocumentMut, outer: Seq<char>, inner: Seq<char>) -> Seq<
    char,
>;

/// The text (`Display`) of the document once `key` is taken out of the table at
/// `outer.inner` with `Table::remove`; the document's own text when the items under `outer`
/// and `outer.inner` are not both tables.
pub uninterp spec fn text_without_subtable_key(
    doc: DocumentMut,
    outer: Seq<char>,
    inner: Seq<char>,
    key: Seq<char>,
) -> Seq<char>;

/// Whether `str::parse::<DocumentMut>` turns `text` into `doc`. Parsing is deterministic, so a
/// text parses into one document at most.
pub uninterp spec fn parses_to(text: Seq<char>, doc: DocumentMut) -> bool;

/// The document that `text` parses into, if it is TOML.
pub open spec fn toml_document(text: Seq<char>) -> Option<DocumentMut> {
    if exists|d: DocumentMut| #[trigger] parses_to(text, d) {
        Some(choose|d: DocumentMut| #[trigger] parses_to(text, d))
    } else {
        None
    }
}

/// The text of the document (`Display`).
pub uninterp spec fn document_text(doc: DocumentMut) -> Seq<char>;

/// Whether `tool` and `tool.uv` are tables and `tool.uv` holds `constraint-dependencies`.
pub open spec fn uv_constraints_present(doc: DocumentMut) -> bool {
    subtable_entries(doc, "tool"@, "uv"@).dom().contains("constraint-dependencies"@)
}

/// The text of the document once `constraint-dependencies` is taken out of its `tool.uv`
/// table (the document's own text when there is none).
pub open spec fn text_without_uv_constraints(doc: DocumentMut) -> Seq<char> {
    text_without_subtable_key(doc, "tool"@, "uv"@, "constraint-dependencies"@)
}

/// `str::parse::<DocumentMut>`: the document `text` parses into, `None` when it is not TOML.
/// That document is the only one `text` parses into.
#[verifier::external_body]
fn parse_document(text: &str) -> (r: Option<DocumentMut>)
    ensures
        r is Some <==> exists|d: DocumentMut| #[trigger] parses_to(text@, d),
        r matches Some(doc) ==> parses_to(text@, doc),
        r matches Some(doc) ==> forall|d: DocumentMut| #[trigger] parses_to(text@, d) ==> d == doc,
{
    match text.parse::<DocumentMut>() {
        Ok(doc) => Some(doc),
        Err(_) => None,
    }
}

/// Parse the text of a `pyproject.toml` into a document that keeps its formatting; `None` when
/// the text is not TOML.
pub fn parse_pyproject(text: &str) -> (r: Option<DocumentMut>)
    ensures
        r == toml_document(text@),
{
    let r = parse_document(text);
    proof {
        if r is Some {
            let d = choose|d: DocumentMut| #[trigger] parses_to(text@, d);
            assert(parses_to(text@, d));
        }
    }
    r
}

/// The text of the document (`Display`).
#[verifier::external_body]
pub(crate) fn render_document(doc: &DocumentMut) -> (r: String)
    ensures
        r@ == document_text(*doc),
{
    doc.to_string()
}

/// The text of `pyproject.toml` without `constraint-dependencies` under `[tool.uv]`, when the
/// text (`pyproject_toml`) is TOML and holds them; `None` otherwise, as there is then nothing
/// to write back.
pub fn without_constraint_dependencies(pyproject_toml: &str) -> (r: Option<String>)
    ensures
        r is Some <==> (toml_document(pyproject_toml@) matches Some(d)
            && uv_constraints_present(d)),
        r matches Some(text) ==> text@ == text_without_uv_constraints(
            toml_document(pyproject_toml@)->0,
        ),
{
    let mut doc = match parse_pyproject(pyproject_toml) {
        Some(doc) => doc,
        None => {
            return None;
        },
    };
    if subtable_contains(&doc, "tool", "uv", "constraint-dependencies") {
        remove_subtable_key(&mut doc, "tool", "uv", "constraint-dependencies");
        Some(render_document(&doc))
    } else {
        None
    }
}

/// Whether the item under `key` at the root of the document is a table: `Table::get` then
/// `Item::as_table`.
#[verifier::external_body]
pub(crate) fn is_table(doc: &DocumentMut, key: &str) -> (r: bool)
    ensures
        r == table_at(*doc, key@),
{
    match doc.get(key) {
        Some(item) => item.as_table().is_some(),
        None => false,
    }
}

/// The keys of the table at `outer.inner`, when there is one, as `Table::iter` yields them.
/// The keys of a table are distinct, they are the keys of its entries, and there is no table at
/// `outer.inner` without a table at `outer`.
#[verifier::external_body]
pub(crate) fn subtable_key_list(doc: &DocumentMut, outer: &str, inner: &str) -> (r: Option<
    Vec<String>,
>)
    ensures
        r.deep_view() == subtable_keys(*doc, outer@, inner@),
        r matches Some(keys) ==> keys.deep_view().no_duplicates(),
        r matches Some(keys) ==> forall|k: Seq<char>|
            #[trigger] subtable_entries(*doc, outer@, inner@).dom().contains(k)
                <==> keys.deep_view().contains(k),
        r is None ==> subtable_entries(*doc, outer@, inner@).dom() == Set::<Seq<char>>::empty(),
        r is Some ==> table_at(*doc, outer@),
{
    let table = doc.get(outer)?.as_table()?.get(inner)?.as_table()?;
    let mut keys = Vec::new();
    for (key, _) in table.iter() {
        keys.push(key.to_string());
    }
    Some(keys)
}

/// Whether the table at `outer.inner` holds an item under `key` (`Table::contains_key`).
#[verifier::external_body]
pub(crate) fn subtable_contains(doc: &DocumentMut, outer: &str, inner: &str, key: &str) -> (r:
    bool)
    ensures
        r == subtable_entries(*doc, outer@, inner@).dom().contains(key@),
{
    if let Some(outer) = doc.get(outer) {
        if let Some(outer) = outer.as_table() {
            if let Some(inner) = outer.get(inner) {
                if let Some(inner) = inner.as_table() {
                    return inner.contains_key(key);
                }
            }
        }
    }
    false
}

/// `keys` without `key`.
pub open spec fn without_key(keys: Seq<Seq<char>>, key: Seq<char>) -> Seq<Seq<char>>
    decreases keys.len(),
{
    if keys.len() == 0 {
        Seq::empty()
    } else {
        let rest = without_key(keys.drop_last(), key);
        if keys.last() == key {
            rest
        } else {
            rest.push(keys.last())
        }
    }
}

/// Removes `key` from the table at `outer.inner`, when there is one (`Table::remove`, which
/// takes out that entry alone). The table's other entries stay as they were, in their order,
/// the table stays where it is, and nothing outside it changes.
#[verifier::external_body]
pub(crate) fn remove_subtable_key(doc: &mut DocumentMut, outer: &str, inner: &str, key: &str)
    ensures
        subtable_keys(*final(doc), outer@, inner@) == match subtable_keys(
            *old(doc),
            outer@,
            inner@,
        ) {
            Some(keys) => Some(without_key(keys, key@)),
            None => None,
        },
        subtable_entries(*final(doc), outer@, inner@) == subtable_entries(
            *old(doc),
            outer@,
            inner@,
        ).remove(key@),
        text_without_entry(*final(doc), outer@, inner@) == text_without_entry(
            *old(doc),
            outer@,
            inner@,
        ),
        document_text(*final(doc)) == text_without_subtable_key(*old(doc), outer@, inner@, key@),
        table_at(*final(doc), outer@) == table_at(*old(doc), outer@),
        subtable_keys(*old(doc), outer@, inner@) is Some ==> holds_entry(
            *final(doc),
            outer@,
            inner@,
        ),
{
    if let Some(outer) = doc.get_mut(outer) {
        if let Some(outer) = outer.as_table_mut() {
            if let Some(inner) = outer.get_mut(inner) {
                if let Some(inner) = inner.as_table_mut() {
                    inner.remove(key);
                }
            }
        }
    }
}

/// Removes `inner` from the table at `outer`, whatever its kind, when the item under `outer` is
/// a table (`Table::remove`, which takes out that entry alone); the document is left as it is
/// otherwise.
#[verifier::external_body]
pub(crate) fn remove_entry(doc: &mut DocumentMut, outer: &str, inner: &str)
    ensures
        subtable_keys(*final(doc), outer@, inner@) is None,
        subtable_entries(*final(doc), outer@, inner@).dom() == Set::<Seq<char>>::empty(),
        text_without_entry(*final(doc), outer@, inner@) == text_without_entry(
            *old(doc),
            outer@,
            inner@,
        ),
        table_at(*old(doc), outer@) ==> !holds_entry(*final(doc), outer@, inner@),
        table_at(*final(doc), outer@) == table_at(*old(doc), outer@),
        !table_at(*old(doc), outer@) ==> *final(doc) == *old(doc),
{
    if let Some(outer) = doc.get_mut(outer) {
        if let Some(outer) = outer.as_table_mut() {
            outer.remove(inner);
        }
    }
}

/// `keys` without any key equal to `key` is `keys` itself when `key` is not among them.
pub proof fn lemma_without_absent_key(keys: Seq<Seq<char>>, key: Seq<char>)
    requires
        !keys.contains(key),
    ensures
        without_key(keys, key) == keys,
    decreases keys.len(),
{
    if keys.len() > 0 {
        let init = keys.drop_last();
        assert(!init.contains(key)) by {
            if init.contains(key) {
                let j = choose|j: int| 0 <= j < init.len() && init[j] == key;
                assert(keys[j] == key);
            }
        }
        lemma_without_absent_key(init, key);
        assert(keys.last() != key) by {
            assert(keys[keys.len() - 1] == keys.last());
        }
        assert(init.push(keys.last()) =~= keys);
    }
}

/// Removing a key from two sequences of keys put together removes it from each.
pub proof fn lemma_without_key_append(a: Seq<Seq<char>>, b: Seq<Seq<char>>, key: Seq<char>)
    ensures
        without_key(a + b, key) == without_key(a, key) + without_key(b, key),
    decreases b.len(),
{
    if b.len() == 0 {
        assert(a + b =~= a);
        assert(without_key(a, key) + without_key(b, key) =~= without_key(a, key));
    } else {
        lemma_without_key_append(a, b.drop_last(), key);
        assert((a + b).drop_last() =~= a + b.drop_last());
        assert((a + b).last() == b.last());
        if b.last() != key {
            assert(without_key(a, key) + without_key(b.drop_last(), key).push(b.last())
                =~= (without_key(a, key) + without_key(b.drop_last(), key)).push(b.last()));
        }
    }
}

} // verus!
