//! Writing a config over an existing file without losing its formatting.
//!
//! The freshly serialized config and the file's current text are both parsed
//! with `toml_edit`; the serialized key tree is then carried into the file's
//! own document. Keys the config no longer has are dropped, tables present on
//! both sides are reconciled entry by entry, and every other value is taken
//! from the serialized config while keeping the decoration (comments and
//! spacing) of the value it replaces.

use vstd::prelude::*;

use toml_edit::{Decor, DocumentMut, Item, Table};

use crate::config::file::ConfigError;

verus! {

/// The shape of a TOML item as reconciliation sees it.
pub enum TomlShape {
    /// An item that is neither a table nor empty: its text with the
    /// decoration of its own value (the spacing and comments around it) left
    /// out, and that decoration, `None` for an array of tables.
    Leaf(Seq<char>, Option<Decor>),
    /// A table, by the keys of its entries.
    Table(Map<Seq<char>, TomlShape>),
    /// The empty item, `Item::None`.
    Absent,
}

#[verifier::external_type_specification]
#[verifier::external_body]
pub struct ExTable(Table);

#[verifier::external_type_specification]
#[verifier::external_body]
pub struct ExItem(Item);

#[verifier::external_type_specification]
#[verifier::external_body]
pub struct ExDocumentMut(DocumentMut);

#[verifier::external_type_specification]
#[verifier::external_body]
pub struct ExDecor(Decor);

/// The entries of a `toml_edit` table, by key: the keys `Table::iter`,
/// `Table::get` and `Table::contains_key` see, each with the shape of its item.
/// A key whose slot holds `Item::None` is not among them.
pub uninterp spec fn toml_table_entries(t: Table) -> Map<Seq<char>, TomlShape>;

/// The shape of a `toml_edit` item: `TomlShape::Table` with the table's
/// entries for `Item::Table`, `TomlShape::Absent` for `Item::None`, and a
/// leaf for a value (with the value's decoration) or an array of tables
/// (with none).
pub uninterp spec fn toml_item_shape(i: Item) -> TomlShape;

/// The entries of a document's root table.
pub uninterp spec fn toml_document_entries(d: DocumentMut) -> Map<Seq<char>, TomlShape>;

/// The text `DocumentMut`'s `Display` writes for a document.
pub uninterp spec fn toml_document_text(d: DocumentMut) -> Seq<char>;

/// What `text.parse::<DocumentMut>()` gives for `text`: the entries of the
/// parsed document's root table, or the message of the `TomlError`.
pub uninterp spec fn toml_edit_parsed(text: Seq<char>) -> Result<Map<Seq<char>, TomlShape>, Seq<char>>;

/// The views of a list of keys.
pub open spec fn key_views(keys: Seq<String>) -> Seq<Seq<char>> {
    keys.map_values(|k: String| k@)
}

/// `text.parse::<DocumentMut>()` (`FromStr for DocumentMut`), its error
/// turned into the error's message. What it returns is a function of the
/// text, named `toml_edit_parsed`; the document's root holds the entries the
/// name gives.
#[verifier::external_body]
fn parse_document(text: &str) -> (r: Result<DocumentMut, String>)
    ensures
        (match toml_edit_parsed(text@) {
            Ok(m) => r matches Ok(d) && toml_document_entries(d) == m,
            Err(e) => r matches Err(s) && s@ == e,
        }),
{
    text.parse::<DocumentMut>().map_err(|error| error.to_string())
}

/// `std::mem::take` of `DocumentMut::as_table_mut`: the root table moves out
/// and an empty table takes its place.
#[verifier::external_body]
fn take_root(document: &mut DocumentMut) -> (root: Table)
    ensures
        toml_table_entries(root) == toml_document_entries(*old(document)),
        toml_document_entries(*final(document)).dom() == Set::<Seq<char>>::empty(),
{
    std::mem::take(document.as_table_mut())
}

/// Assign `root` through `DocumentMut::as_table_mut`: the document's root
/// table becomes `root`.
#[verifier::external_body]
fn put_root(document: &mut DocumentMut, root: Table)
    ensures
        toml_document_entries(*final(document)) == toml_table_entries(root),
{
    *document.as_table_mut() = root;
}

/// `DocumentMut`'s `Display`: the document's text, named `toml_document_text`.
#[verifier::external_body]
fn document_text(document: &DocumentMut) -> (text: String)
    ensures
        text@ == toml_document_text(*document),
{
    document.to_string()
}

/// The keys `Table::iter` yields, as strings: each key of the table's entries
/// once.
#[verifier::external_body]
fn table_keys(table: &Table) -> (keys: Vec<String>)
    ensures
        key_views(keys@).no_duplicates(),
        toml_table_entries(*table).dom() == key_views(keys@).to_set(),
{
    table.iter().map(|(key, _)| key.to_string()).collect()
}

/// `Table::contains_key`: whether `key` is among the table's entries.
#[verifier::external_body]
fn table_contains(table: &Table, key: &str) -> (found: bool)
    ensures
        found == toml_table_entries(*table).dom().contains(key@),
{
    table.contains_key(key)
}

/// `Index<&str> for Table`: the item of an entry, which is never
/// `Item::None`. It panics on a key with no entry, which `requires` rules out.
#[verifier::external_body]
fn table_get<'a>(table: &'a Table, key: &str) -> (item: &'a Item)
    requires
        toml_table_entries(*table).dom().contains(key@),
    ensures
        toml_item_shape(*item) == toml_table_entries(*table)[key@],
        !(toml_item_shape(*item) is Absent),
{
    &table[key]
}

/// `Table::remove`: the entry under `key`, if any, is gone.
#[verifier::external_body]
fn table_remove(table: &mut Table, key: &str)
    ensures
        toml_table_entries(*final(table)) == toml_table_entries(*old(table)).remove(key@),
{
    table.remove(key);
}

/// `Table::insert`: the entry under `key` holds `item` (an `Item::None`
/// leaves no entry).
#[verifier::external_body]
fn table_insert(table: &mut Table, key: &str, item: Item)
    ensures
        toml_item_shape(item) is Absent ==> toml_table_entries(*final(table)) == toml_table_entries(
            *old(table),
        ).remove(key@),
        !(toml_item_shape(item) is Absent) ==> toml_table_entries(*final(table)) == toml_table_entries(
            *old(table),
        ).insert(key@, toml_item_shape(item)),
{
    table.insert(key, item);
}

/// `std::mem::replace` on `IndexMut<&str> for Table`: the slot of `key` (made
/// at the end of the table when there is none) now holds `item`, in the place
/// and under the key formatting the slot had; the item it held comes back,
/// `Item::None` when `key` had no entry.
#[verifier::external_body]
fn table_replace(table: &mut Table, key: &str, item: Item) -> (previous: Item)
    ensures
        toml_table_entries(*old(table)).dom().contains(key@) ==> toml_item_shape(previous)
            == toml_table_entries(*old(table))[key@],
        !toml_table_entries(*old(table)).dom().contains(key@) ==> toml_item_shape(previous) is Absent,
        toml_item_shape(item) is Absent ==> toml_table_entries(*final(table)) == toml_table_entries(
            *old(table),
        ).remove(key@),
        !(toml_item_shape(item) is Absent) ==> toml_table_entries(*final(table)) == toml_table_entries(
            *old(table),
        ).insert(key@, toml_item_shape(item)),
{
    std::mem::replace(&mut table[key], item)
}

/// `Item::default()`, the empty item `Item::None`.
#[verifier::external_body]
fn empty_item() -> (item: Item)
    ensures
        toml_item_shape(item) is Absent,
{
    Item::default()
}

/// `Item::as_table`: the table of an `Item::Table`, `None` for any other item.
#[verifier::external_body]
fn item_as_table(item: &Item) -> (table: Option<&Table>)
    ensures
        table matches Some(t) ==> toml_item_shape(*item) == TomlShape::Table(toml_table_entries(*t)),
        table is None ==> !(toml_item_shape(*item) is Table),
{
    item.as_table()
}

/// Move the table out of an `Item::Table`; any other item comes back as it
/// was.
#[verifier::external_body]
fn item_into_table(item: Item) -> (r: Result<Table, Item>)
    ensures
        r matches Ok(t) ==> toml_item_shape(item) == TomlShape::Table(toml_table_entries(t)),
        r matches Err(i) ==> i == item && !(toml_item_shape(item) is Table),
{
    match item {
        Item::Table(table) => Ok(table),
        other => Err(other),
    }
}

/// `Item::Table`: an item holding `table`.
#[verifier::external_body]
fn table_item(table: Table) -> (item: Item)
    ensures
        toml_item_shape(item) == TomlShape::Table(toml_table_entries(table)),
{
    Item::Table(table)
}

/// `Item::clone`: an item of the same shape, decoration included.
#[verifier::external_body]
fn item_clone(item: &Item) -> (copy: Item)
    ensures
        toml_item_shape(copy) == toml_item_shape(*item),
{
    item.clone()
}

/// `Item::as_value` and `Value::decor`: a copy of the decoration of the
/// item's value, `None` when the item is not a value.
#[verifier::external_body]
fn value_decor(item: &Item) -> (decor: Option<Decor>)
    ensures
        (match toml_item_shape(*item) {
            TomlShape::Leaf(_, d) => decor == d,
            _ => decor is None,
        }),
{
    item.as_value().map(|value| value.decor().clone())
}

/// `Item::as_value_mut` and `Value::decor_mut`: when the item is a value, its
/// decoration becomes `decor`; any other item is left as it was.
#[verifier::external_body]
fn set_value_decor(item: &mut Item, decor: Decor)
    ensures
        toml_item_shape(*final(item)) == (match toml_item_shape(*old(item)) {
            TomlShape::Leaf(text, Some(_)) => TomlShape::Leaf(text, Some(decor)),
            other => other,
        }),
{
    if let Some(value) = item.as_value_mut() {
        *value.decor_mut() = decor;
    }
}

/// What replacing an item of shape `current` by one of shape `generated`
/// gives: two tables are merged entry by entry; a value replacing a value
/// keeps the decoration (comments and spacing) of the value it replaces;
/// anything else is the generated item as it is.
pub open spec fn merged(current: TomlShape, generated: TomlShape) -> TomlShape
    decreases generated,
{
    match generated {
        TomlShape::Table(g) => match current {
            TomlShape::Table(c) => TomlShape::Table(
                Map::new(
                    |k: Seq<char>| g.dom().contains(k),
                    |k: Seq<char>| if g.dom().contains(k) && c.dom().contains(k) {
                        merged(c[k], g[k])
                    } else {
                        g[k]
                    },
                ),
            ),
            _ => generated,
        },
        TomlShape::Leaf(text, Some(_)) => match current {
            TomlShape::Leaf(_, Some(d)) => TomlShape::Leaf(text, Some(d)),
            _ => generated,
        },
        _ => generated,
    }
}

/// The entries a table with entries `current` has once the entries
/// `generated` are carried into it: exactly the keys of `generated`, each
/// merged with the entry `current` has under it, if any.
pub open spec fn merged_entries(
    current: Map<Seq<char>, TomlShape>,
    generated: Map<Seq<char>, TomlShape>,
) -> Map<Seq<char>, TomlShape> {
    match merged(TomlShape::Table(current), TomlShape::Table(generated)) {
        TomlShape::Table(m) => m,
        _ => generated,
    }
}

/// `generated`, carrying over the decoration of `current` when both are
/// values.
fn replaced_value(current: Item, generated: &Item) -> (r: Item)
    requires
        !(toml_item_shape(current) is Table && toml_item_shape(*generated) is Table),
    ensures
        toml_item_shape(r) == merged(toml_item_shape(current), toml_item_shape(*generated)),
{
    let decor = value_decor(&current);
    let mut item = item_clone(generated);
    if let Some(decor) = decor {
        set_value_decor(&mut item, decor);
    }
    item
}

/// Reconcile one entry: two tables are reconciled key by key, anything else
/// is replaced by the generated item.
fn reconcile_item(current: Item, generated: &Item) -> (r: Item)
    ensures
        toml_item_shape(r) == merged(toml_item_shape(current), toml_item_shape(*generated)),
    decreases toml_item_shape(*generated), 1int,
{
    match item_as_table(generated) {
        Some(generated_table) => match item_into_table(current) {
            Ok(current_table) => {
                let mut current_table = current_table;
                reconcile_table(&mut current_table, generated_table);
                table_item(current_table)
            },
            Err(current) => replaced_value(current, generated),
        },
        None => replaced_value(current, generated),
    }
}

/// Carry the key tree of `generated` into `current`: keys `generated` lacks
/// are removed, entries on both sides are reconciled, and new keys are
/// appended with the generated item.
pub fn reconcile_table(current: &mut Table, generated: &Table)
    ensures
        toml_table_entries(*final(current)) == merged_entries(
            toml_table_entries(*old(current)),
            toml_table_entries(*generated),
        ),
    decreases TomlShape::Table(toml_table_entries(*generated)), 0int,
{
    let ghost g = toml_table_entries(*generated);
    let ghost c0 = toml_table_entries(*current);
    let ghost m = merged_entries(c0, g);
    proof {
        lemma_merged_entries(c0, g);
    }
    let existing = table_keys(current);
    let ghost ek = key_views(existing@);
    let mut i: usize = 0;
    while i < existing.len()
        invariant
            0 <= i <= existing.len(),
            ek == key_views(existing@),
            c0.dom() == ek.to_set(),
            g == toml_table_entries(*generated),
            forall|k: Seq<char>| #[trigger] toml_table_entries(*current).dom().contains(k)
                ==> c0.dom().contains(k) && toml_table_entries(*current)[k] == c0[k],
            forall|k: Seq<char>| c0.dom().contains(k) && g.dom().contains(k)
                ==> #[trigger] toml_table_entries(*current).dom().contains(k),
            forall|j: int|
                0 <= j < i && toml_table_entries(*current).dom().contains(#[trigger] ek[j]) ==> g.dom().contains(ek[j]),
        decreases existing.len() - i,
    {
        let key = existing[i].as_str();
        if !table_contains(generated, key) {
            table_remove(current, key);
        }
        i = i + 1;
    }
    proof {
        assert forall|k: Seq<char>| #[trigger] toml_table_entries(*current).dom().contains(k) implies g.dom().contains(k) by {
            assert(c0.dom().contains(k));
            assert(ek.to_set().contains(k));
            let j = choose|j: int| 0 <= j < ek.len() && ek[j] == k;
            assert(ek[j] == k);
        }
    }
    let keys = table_keys(generated);
    let ghost gk = key_views(keys@);
    proof {
        vstd::seq_lib::seq_to_set_is_finite(gk);
    }
    let mut i: usize = 0;
    while i < keys.len()
        invariant
            0 <= i <= keys.len(),
            gk == key_views(keys@),
            gk.no_duplicates(),
            g.dom() == gk.to_set(),
            g.dom().finite(),
            g == toml_table_entries(*generated),
            m.dom() == g.dom(),
            forall|k: Seq<char>| #[trigger] g.dom().contains(k) ==> m[k] == (if c0.dom().contains(k) {
                merged(c0[k], g[k])
            } else {
                g[k]
            }),
            forall|k: Seq<char>| #[trigger] toml_table_entries(*current).dom().contains(k) ==> g.dom().contains(k),
            forall|j: int|
                i <= j < gk.len() ==> (toml_table_entries(*current).dom().contains(#[trigger] gk[j])
                    <==> c0.dom().contains(gk[j])) && (toml_table_entries(*current).dom().contains(gk[j])
                    ==> toml_table_entries(*current)[gk[j]] == c0[gk[j]]),
            forall|j: int|
                0 <= j < i ==> toml_table_entries(*current).dom().contains(#[trigger] gk[j])
                    && toml_table_entries(*current)[gk[j]] == m[gk[j]],
        decreases keys.len() - i,
    {
        let key = keys[i].as_str();
        proof {
            assert(gk[i as int] == key@);
            assert(gk.to_set().contains(gk[i as int]));
        }
        let generated_item = table_get(generated, key);
        proof {
            let shape = TomlShape::Table(g);
            assert(decreases_to!(shape => shape->Table_0));
            assert(decreases_to!(g => g[key@]));
        }
        let ghost before = toml_table_entries(*current);
        if table_contains(current, key) {
            let previous = table_replace(current, key, empty_item());
            let merged_item = reconcile_item(previous, generated_item);
            table_replace(current, key, merged_item);
        } else {
            table_insert(current, key, item_clone(generated_item));
        }
        proof {
            assert(toml_table_entries(*current) == before.insert(key@, m[key@]));
            assert forall|j: int|
                0 <= j < i + 1 implies toml_table_entries(*current).dom().contains(#[trigger] gk[j])
                && toml_table_entries(*current)[gk[j]] == m[gk[j]] by {
                if j < i {
                    assert(gk[j] != gk[i as int]);
                }
            }
            assert forall|j: int|
                i + 1 <= j < gk.len() implies (toml_table_entries(*current).dom().contains(#[trigger] gk[j])
                    <==> c0.dom().contains(gk[j])) && (toml_table_entries(*current).dom().contains(gk[j])
                    ==> toml_table_entries(*current)[gk[j]] == c0[gk[j]]) by {
                assert(gk[j] != gk[i as int]);
            }
        }
        i = i + 1;
    }
    proof {
        assert forall|k: Seq<char>| g.dom().contains(k) implies #[trigger] toml_table_entries(*current).dom().contains(k)
            && toml_table_entries(*current)[k] == m[k] by {
            assert(gk.to_set().contains(k));
            let j = choose|j: int| 0 <= j < gk.len() && gk[j] == k;
            assert(gk[j] == k);
        }
        assert(toml_table_entries(*current) =~= m);
    }
}

/// The entries of `merged_entries(current, generated)`: exactly the keys of
/// `generated`, each merged with `current`'s entry when there is one.
proof fn lemma_merged_entries(current: Map<Seq<char>, TomlShape>, generated: Map<Seq<char>, TomlShape>)
    ensures
        merged_entries(current, generated).dom() == generated.dom(),
        forall|k: Seq<char>| #[trigger] generated.dom().contains(k) ==> merged_entries(current, generated)[k] == (
            if current.dom().contains(k) {
                merged(current[k], generated[k])
            } else {
                generated[k]
            }),
{
    assert(merged_entries(current, generated).dom() =~= generated.dom());
}

/// A shape with every value's decoration left out.
pub open spec fn undecorated(shape: TomlShape) -> TomlShape
    decreases shape,
{
    match shape {
        TomlShape::Leaf(text, _) => TomlShape::Leaf(text, None),
        TomlShape::Table(m) => TomlShape::Table(
            Map::new(
                |k: Seq<char>| m.dom().contains(k),
                |k: Seq<char>| if m.dom().contains(k) { undecorated(m[k]) } else { m[k] },
            ),
        ),
        TomlShape::Absent => TomlShape::Absent,
    }
}

/// Reconciling changes nothing the generated config says: decoration aside,
/// the merged item is the generated one, with the same keys at every level
/// and the same values.
pub proof fn lemma_merged_is_generated_undecorated(current: TomlShape, generated: TomlShape)
    ensures
        undecorated(merged(current, generated)) == undecorated(generated),
    decreases generated,
{
    match (current, generated) {
        (TomlShape::Table(c), TomlShape::Table(g)) => {
            let m = merged_entries(c, g);
            lemma_merged_entries(c, g);
            assert forall|k: Seq<char>| #[trigger] g.dom().contains(k) implies undecorated(m[k]) == undecorated(g[k]) by {
                if c.dom().contains(k) {
                    lemma_merged_is_generated_undecorated(c[k], g[k]);
                }
            }
            assert(merged(current, generated) == TomlShape::Table(m));
            let um = undecorated(TomlShape::Table(m))->Table_0;
            let ug = undecorated(generated)->Table_0;
            assert(um =~= ug);
        },
        _ => {},
    }
}

/// What rendering `generated` over a file at `path` whose text is `original`
/// gives: `generated` itself when there is no file; an `Edit` error with the
/// parser's message when either text is not TOML (the file's text is parsed
/// first); else a document whose root holds exactly the entries of
/// `generated`, as text.
pub open spec fn rendered(
    generated: Seq<char>,
    original: Option<Seq<char>>,
    path: Seq<char>,
    r: Result<String, ConfigError>,
) -> bool {
    match original {
        None => r matches Ok(s) && s@ == generated,
        Some(o) => match (toml_edit_parsed(o), toml_edit_parsed(generated)) {
            (Err(m), _) => r matches Err(ConfigError::Edit { path: p, source: e }) && p@ == path && e@ == m,
            (Ok(_), Err(m)) => r matches Err(ConfigError::Edit { path: p, source: e }) && p@ == path && e@ == m,
            (Ok(c), Ok(g)) => r matches Ok(s) && exists|d: DocumentMut|
                toml_document_entries(d) == merged_entries(c, g) && s@ == #[trigger] toml_document_text(d),
        },
    }
}

/// The text to write over a config file: `generated` as it is when there is
/// no file yet, else the file's text `original` with the key tree of
/// `generated` carried into it by `reconcile_table`. Either text failing to
/// parse is an `Edit` error with the parser's message.
pub fn render_config(generated: &str, original: Option<&str>, path: &str) -> (r: Result<String, ConfigError>)
    ensures
        rendered(generated@, (match original { Some(o) => Some(o@), None => None }), path@, r),
{
    let original = match original {
        None => return Ok(generated.to_string()),
        Some(original) => original,
    };
    let mut document = match parse_document(original) {
        Ok(document) => document,
        Err(source) => return Err(ConfigError::Edit { path: path.to_string(), source }),
    };
    let mut generated_document = match parse_document(generated) {
        Ok(document) => document,
        Err(source) => return Err(ConfigError::Edit { path: path.to_string(), source }),
    };
    let mut root = take_root(&mut document);
    let generated_root = take_root(&mut generated_document);
    reconcile_table(&mut root, &generated_root);
    put_root(&mut document, root);
    let text = document_text(&document);
    proof {
        assert(toml_document_entries(document) == merged_entries(
            toml_edit_parsed(original@)->Ok_0,
            toml_edit_parsed(generated@)->Ok_0,
        ));
    }
    Ok(text)
}

} // verus!
