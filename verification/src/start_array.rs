//! Replacing the `start` array of a promoter file in place, keeping its formatting and
//! comments: which resource tables are edited and what is answered is decided here; reading
//! the document and writing the edit are `toml_edit`'s work.

use vstd::prelude::*;
use crate::nodes::AppError;
use crate::profile_toml::{start_array_not_found, toml_file_parse_failed};

verus! {

/// What `toml_edit` reads from `content`: the parse error, or the entries of the table
/// `inner` of the first table of the array of tables `outer`, in order, each with whether it
/// is a table holding `key` (no entries where that path leads nowhere).
pub uninterp spec fn toml_edit_nested_entries(
    content: Seq<char>,
    outer: Seq<char>,
    inner: Seq<char>,
    key: Seq<char>,
) -> Result<Seq<(Seq<char>, bool)>, Seq<char>>;

/// The text `toml_edit` renders once `key` of each named entry of the table `inner` of the
/// first table of the array of tables `outer` is set to the array `values`.
pub uninterp spec fn toml_edit_with_arrays(
    content: Seq<char>,
    outer: Seq<char>,
    inner: Seq<char>,
    names: Seq<Seq<char>>,
    key: Seq<char>,
    values: Seq<Seq<char>>,
) -> Seq<char>;

/// `content.parse::<toml_edit::DocumentMut>()`, then `get(outer)`,
/// `Item::as_array_of_tables`, `ArrayOfTables::get(0)`, `Table::get(inner)`,
/// `Item::as_table_like` and, for each entry of `TableLike::iter`, `Item::as_table_like` and
/// `TableLike::contains_key(key)`, handed out as names and booleans. Its outcome is named,
/// not stated.
#[verifier::external_body]
fn nested_entries(content: &str, outer: &str, inner: &str, key: &str) -> (r: Result<Vec<(String, bool)>, String>)
    ensures
        match r {
            Ok(v) => toml_edit_nested_entries(content@, outer@, inner@, key@)
                == Ok::<Seq<(Seq<char>, bool)>, Seq<char>>(v@.map_values(|p: (String, bool)| (p.0@, p.1))),
            Err(e) => toml_edit_nested_entries(content@, outer@, inner@, key@)
                == Err::<Seq<(Seq<char>, bool)>, Seq<char>>(e@),
        },
{
    let doc: toml_edit::DocumentMut = content.parse().map_err(|e: toml_edit::TomlError| e.to_string())?;
    let first = doc.get(outer).and_then(toml_edit::Item::as_array_of_tables).and_then(|a| a.get(0));
    let table = first.and_then(|t| t.get(inner)).and_then(toml_edit::Item::as_table_like);
    Ok(table.map_or(Vec::new(), |t| {
        t.iter().map(|(k, i)| (k.to_string(), i.as_table_like().map_or(false, |e| e.contains_key(key)))).collect()
    }))
}

/// `content.parse::<toml_edit::DocumentMut>()`, then for each name `get_mut(outer)`,
/// `Item::as_array_of_tables_mut`, `ArrayOfTables::get_mut(0)`, `Table::get_mut(inner)`,
/// `Item::as_table_like_mut`, `TableLike::get_mut(name)`, `Item::as_table_like_mut` and
/// `TableLike::insert(key, ..)` of a `toml_edit::Array` of `values`, then `to_string`. Its
/// text is named, not stated.
#[verifier::external_body]
fn set_nested_arrays(
    content: &str,
    outer: &str,
    inner: &str,
    names: &Vec<String>,
    key: &str,
    values: &Vec<String>,
) -> (r: String)
    requires
        toml_edit_nested_entries(content@, outer@, inner@, key@) is Ok,
    ensures
        r@ == toml_edit_with_arrays(
            content@,
            outer@,
            inner@,
            names@.map_values(|s: String| s@),
            key@,
            values@.map_values(|s: String| s@),
        ),
{
    let mut doc: toml_edit::DocumentMut = content.parse().unwrap();
    for name in names {
        let first = doc.get_mut(outer).and_then(toml_edit::Item::as_array_of_tables_mut).and_then(|a| a.get_mut(0));
        let table = first.and_then(|t| t.get_mut(inner)).and_then(toml_edit::Item::as_table_like_mut);
        if let Some(t) = table.and_then(|t| t.get_mut(name)).and_then(toml_edit::Item::as_table_like_mut) {
            t.insert(key, toml_edit::Item::Value(values.iter().map(|s| s.as_str()).collect::<toml_edit::Array>().into()));
        }
    }
    doc.to_string()
}

/// The array of tables that holds the promoter sections of a drbd-reactor file.
pub open spec fn promoter_key() -> Seq<char> {
    seq!['p', 'r', 'o', 'm', 'o', 't', 'e', 'r']
}

/// The table of a promoter section that holds one table per resource.
pub open spec fn resources_key() -> Seq<char> {
    seq!['r', 'e', 's', 'o', 'u', 'r', 'c', 'e', 's']
}

/// The key of a resource table that lists the units started on promotion.
pub open spec fn start_key() -> Seq<char> {
    seq!['s', 't', 'a', 'r', 't']
}

/// The names of the first `n` tables that hold a `start` key, in order.
pub open spec fn names_with_start(ts: Seq<(Seq<char>, bool)>, n: int) -> Seq<Seq<char>>
    decreases n,
{
    if n <= 0 {
        Seq::empty()
    } else {
        names_with_start(ts, n - 1) + (if ts[n - 1].1 {
            seq![ts[n - 1].0]
        } else {
            Seq::<Seq<char>>::empty()
        })
    }
}

/// The resource tables whose `start` array is to be replaced, from the entries read out of a
/// promoter file (`entries`: the parser's error, or each table's name and whether it holds a
/// `start` key): a parse error is refused with its message, no table with a `start` key is
/// answered not found, otherwise the names of those tables are given in order.
pub fn start_array_targets(path: &str, entries: Result<Vec<(String, bool)>, String>) -> (r: Result<Vec<String>, AppError>)
    ensures
        match entries {
            Err(e) => r matches Err(AppError::Validation(m)) && m@ == "Failed to parse TOML file '"@
                + path@ + "': "@ + e@,
            Ok(t) => {
                let ts = t@.map_values(|p: (String, bool)| (p.0@, p.1));
                if names_with_start(ts, ts.len() as int).len() == 0 {
                    r matches Err(AppError::NotFound(m)) && m@
                        == "Could not find 'start' array in TOML configuration"@
                } else {
                    r matches Ok(names) && names@.map_values(|s: String| s@) == names_with_start(ts, ts.len() as int)
                }
            },
        },
{
    let tables = match entries {
        Err(e) => return Err(toml_file_parse_failed(path, e.as_str())),
        Ok(t) => t,
    };
    let ghost ts = tables@.map_values(|p: (String, bool)| (p.0@, p.1));
    let mut names: Vec<String> = Vec::new();
    let mut i: usize = 0;
    while i < tables.len()
        invariant
            i <= tables.len(),
            ts == tables@.map_values(|p: (String, bool)| (p.0@, p.1)),
            names@.map_values(|s: String| s@) == names_with_start(ts, i as int),
        decreases tables.len() - i,
    {
        let ghost before = names@.map_values(|s: String| s@);
        if tables[i].1 {
            names.push(tables[i].0.clone());
            assert(names@.map_values(|s: String| s@) =~= before + seq![ts[i as int].0]);
        } else {
            assert(names@.map_values(|s: String| s@) =~= before + Seq::<Seq<char>>::empty());
        }
        i = i + 1;
    }
    if names.len() == 0 {
        return Err(start_array_not_found());
    }
    Ok(names)
}

/// Replaces the `start` array of every resource table of the first `[[promoter]]` that has
/// one: a file that does not parse is refused with the parser's message, a file without any
/// `start` array is answered not found, otherwise the edited text is given.
pub fn replace_start_array(path: &str, content: &str, start: &Vec<String>) -> (r: Result<String, AppError>)
    ensures
        match toml_edit_nested_entries(content@, promoter_key(), resources_key(), start_key()) {
            Err(e) => r matches Err(AppError::Validation(m)) && m@ == "Failed to parse TOML file '"@
                + path@ + "': "@ + e,
            Ok(ts) => if names_with_start(ts, ts.len() as int).len() == 0 {
                r matches Err(AppError::NotFound(m)) && m@
                    == "Could not find 'start' array in TOML configuration"@
            } else {
                r matches Ok(s) && s@ == toml_edit_with_arrays(
                    content@,
                    promoter_key(),
                    resources_key(),
                    names_with_start(ts, ts.len() as int),
                    start_key(),
                    start@.map_values(|x: String| x@),
                )
            },
        },
{
    let outer = "promoter";
    let inner = "resources";
    let key = "start";
    proof {
        reveal_strlit("promoter");
        reveal_strlit("resources");
        reveal_strlit("start");
    }
    assert(outer@ == promoter_key());
    assert(inner@ == resources_key());
    assert(key@ == start_key());
    let entries = nested_entries(content, outer, inner, key);
    let names = start_array_targets(path, entries)?;
    Ok(set_nested_arrays(content, outer, inner, &names, key, start))
}


proof fn lemma_names_prefix(ts: Seq<(Seq<char>, bool)>, extra: (Seq<char>, bool), n: int)
    requires
        0 <= n <= ts.len(),
    ensures
        names_with_start(ts.push(extra), n) == names_with_start(ts, n),
    decreases n,
{
    if n > 0 {
        lemma_names_prefix(ts, extra, n - 1);
        assert(ts.push(extra)[n - 1] == ts[n - 1]);
    }
}

proof fn lemma_names_none(ts: Seq<(Seq<char>, bool)>, n: int)
    requires
        0 <= n <= ts.len(),
        forall|k: int| 0 <= k < ts.len() ==> !(#[trigger] ts[k]).1,
    ensures
        names_with_start(ts, n).len() == 0,
    decreases n,
{
    if n > 0 {
        lemma_names_none(ts, n - 1);
    }
}

/// The tables whose `start` array is replaced are exactly those with a `start` key, in file
/// order: a file whose tables have none gives none, and one more table adds its name at the
/// end exactly when it has a `start` key.
pub proof fn law_start_targets_in_order(ts: Seq<(Seq<char>, bool)>, name: Seq<char>, has_start: bool)
    ensures
        (forall|k: int| 0 <= k < ts.len() ==> !(#[trigger] ts[k]).1) ==> names_with_start(ts, ts.len() as int).len() == 0,
        names_with_start(ts.push((name, has_start)), ts.len() + 1int) == (if has_start {
            names_with_start(ts, ts.len() as int).push(name)
        } else {
            names_with_start(ts, ts.len() as int)
        }),
{
    if forall|k: int| 0 <= k < ts.len() ==> !(#[trigger] ts[k]).1 {
        lemma_names_none(ts, ts.len() as int);
    }
    lemma_names_prefix(ts, (name, has_start), ts.len() as int);
    let t2 = ts.push((name, has_start));
    assert(t2[ts.len() as int] == (name, has_start));
    if has_start {
        assert(names_with_start(ts, ts.len() as int) + seq![name] =~= names_with_start(ts, ts.len() as int).push(name));
    } else {
        assert(names_with_start(ts, ts.len() as int) + Seq::<Seq<char>>::empty() =~= names_with_start(ts, ts.len() as int));
    }
}

} // verus!
