use vstd::prelude::*;
use crate::error::DepError;

verus! {

#[verifier::external_type_specification]
#[verifier::external_body]
pub struct ExTomlError(toml::de::Error);

/// What the manifest text `text` declares under the top-level table `table`:
/// `None` when the text is not a well-formed document, `Some(None)` when the
/// table is absent or not a table, and `Some(Some(keys))` with the table's keys
/// in the order in which the document map yields them.
pub uninterp spec fn manifest_table(text: Seq<char>, table: Seq<char>) -> Option<
    Option<Seq<Seq<char>>>,
>;

/// Relies on toml::from_str into toml::Value, then Value::get, Value::as_table
/// and Map::keys: parses the document and lists the keys of one table.
#[verifier::external_body]
fn table_keys(text: &str, table: &str) -> (r: Result<Option<Vec<String>>, toml::de::Error>)
    ensures
        match r {
            Ok(keys) => manifest_table(text@, table@) == Some(keys.deep_view()),
            Err(_) => manifest_table(text@, table@) is None,
        },
{
    match toml::from_str::<toml::Value>(text) {
        Ok(doc) => Ok(match doc.get(table).and_then(toml::Value::as_table) {
            Some(t) => Some(t.keys().cloned().collect()),
            None => None,
        }),
        Err(e) => Err(e),
    }
}

/// The keys of one table, an absent table counting as empty.
pub open spec fn keys_or_empty(t: Option<Seq<Seq<char>>>) -> Seq<Seq<char>> {
    match t {
        Some(k) => k,
        None => Seq::empty(),
    }
}

/// Whether the manifest text parses as a document.
pub open spec fn manifest_parses(text: Seq<char>) -> bool {
    manifest_table(text, "dependencies"@) is Some
        && manifest_table(text, "dev-dependencies"@) is Some
        && manifest_table(text, "build-dependencies"@) is Some
}

/// Every declared dependency name: regular, then development, then build
/// dependencies, each occurrence listed.
pub open spec fn declared_names(text: Seq<char>) -> Seq<Seq<char>> {
    keys_or_empty(manifest_table(text, "dependencies"@)->Some_0)
        + keys_or_empty(manifest_table(text, "dev-dependencies"@)->Some_0)
        + keys_or_empty(manifest_table(text, "build-dependencies"@)->Some_0)
}

/// Appends the keys of one table to `all`.
pub fn extend_names(all: &mut Vec<String>, keys: Option<Vec<String>>)
    ensures
        final(all).deep_view() == old(all).deep_view() + keys_or_empty(keys.deep_view()),
{
    if let Some(k) = keys {
        let mut i: usize = 0;
        while i < k.len()
            invariant
                i <= k.len(),
                all.deep_view() == old(all).deep_view() + k.deep_view().take(i as int),
            decreases k.len() - i,
        {
            let ghost before = all.deep_view();
            all.push(k[i].clone());
            proof {
                assert(all.deep_view() =~= before.push(k[i as int]@));
                assert(k.deep_view().take(i + 1) =~= k.deep_view().take(i as int).push(k[i as int]@));
                assert(all.deep_view() =~= old(all).deep_view() + k.deep_view().take(i + 1));
            }
            i += 1;
        }
        proof {
            assert(k.deep_view().take(k.len() as int) =~= k.deep_view());
        }
    } else {
        assert(all.deep_view() =~= old(all).deep_view() + Seq::<Seq<char>>::empty());
    }
}

/// Lists the dependency names that the manifest text declares, in table
/// order: regular, development, build.
pub fn declared_dependencies(text: &str) -> (r: Result<Vec<String>, DepError>)
    ensures
        match r {
            Ok(names) => manifest_parses(text@) && names.deep_view() == declared_names(text@),
            Err(e) => !manifest_parses(text@) && e == DepError::ManifestMalformed,
        },
{
    let mut all: Vec<String> = Vec::new();
    let regular = match table_keys(text, "dependencies") {
        Ok(k) => k,
        Err(_) => return Err(DepError::ManifestMalformed),
    };
    let dev = match table_keys(text, "dev-dependencies") {
        Ok(k) => k,
        Err(_) => return Err(DepError::ManifestMalformed),
    };
    let build = match table_keys(text, "build-dependencies") {
        Ok(k) => k,
        Err(_) => return Err(DepError::ManifestMalformed),
    };
    extend_names(&mut all, regular);
    extend_names(&mut all, dev);
    extend_names(&mut all, build);
    proof {
        assert(all.deep_view() =~= declared_names(text@));
    }
    Ok(all)
}

} // verus!
