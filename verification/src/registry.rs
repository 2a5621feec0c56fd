//! The schema registry: a mapping from identifier to schema document,
//! populated incrementally, and the lenient reference resolver over it.

use vstd::prelude::*;

use crate::json::{declared_id, schema_id_field, value_clone, IdField, IdFieldModel};
use crate::text::{
    fragment_stripped, lemma_first_hash_index_of_scan, str_eq, trailing_slash_stripped,
};

verus! {

broadcast use vstd::string::group_string_axioms;

/// A declared schema-identifier field is present but is not a string.
#[derive(Debug)]
pub struct InvalidSchemaId;

/// A reference could not be resolved through any of the resolution attempts.
#[derive(Debug)]
pub struct SchemaNotFound {
    pub uri: String,
}

/// Keys of the registered entries are pairwise distinct.
pub open spec fn unique_keys(s: Seq<(String, serde_json::Value)>) -> bool {
    forall|i: int, j: int| 0 <= i < j < s.len() ==> s[i].0@ != s[j].0@
}

/// The mapping that a sequence of registered entries denotes: a later entry
/// with the same identifier overwrites an earlier one.
pub open spec fn entries_map(s: Seq<(String, serde_json::Value)>) -> Map<
    Seq<char>,
    serde_json::Value,
>
    decreases s.len(),
{
    if s.len() == 0 {
        Map::empty()
    } else {
        entries_map(s.drop_last()).insert(s.last().0@, s.last().1)
    }
}

/// The identifier a document is registered under: the explicit key when one
/// is given, the document's own declared identifier otherwise, and a sentinel
/// placeholder when the document declares none.
pub open spec fn registered_id(key: Option<String>, declared: IdFieldModel) -> Seq<char> {
    match key {
        Some(k) => k@,
        None => match declared {
            IdFieldModel::Text(s) => s,
            _ => "unknown"@,
        },
    }
}

/// The layered resolution rule: an exact match first, then the URI with any
/// trailing `#fragment` stripped, then that base with a single trailing
/// slash stripped, then that base with a single trailing slash appended —
/// so identifiers registered with or without the slash are found either
/// way.
pub open spec fn resolve_spec(m: Map<Seq<char>, serde_json::Value>, u: Seq<char>) -> Option<
    serde_json::Value,
> {
    let base = fragment_stripped(u);
    if m.contains_key(u) {
        Some(m[u])
    } else if m.contains_key(base) {
        Some(m[base])
    } else if m.contains_key(trailing_slash_stripped(base)) {
        Some(m[trailing_slash_stripped(base)])
    } else if m.contains_key(base.push('/')) {
        Some(m[base.push('/')])
    } else {
        None
    }
}

proof fn lemma_entries_map_index(s: Seq<(String, serde_json::Value)>, i: int)
    requires
        unique_keys(s),
        0 <= i < s.len(),
    ensures
        entries_map(s).contains_key(s[i].0@),
        entries_map(s)[s[i].0@] == s[i].1,
    decreases s.len(),
{
    if i < s.len() - 1 {
        assert(unique_keys(s.drop_last()));
        lemma_entries_map_index(s.drop_last(), i);
        assert(s.drop_last()[i] == s[i]);
        assert(s[i].0@ != s.last().0@);
    }
}

proof fn lemma_entries_map_not_found(s: Seq<(String, serde_json::Value)>, k: Seq<char>)
    requires
        forall|i: int| 0 <= i < s.len() ==> s[i].0@ != k,
    ensures
        !entries_map(s).contains_key(k),
    decreases s.len(),
{
    if s.len() > 0 {
        assert(forall|i: int| 0 <= i < s.drop_last().len() ==> s.drop_last()[i].0@ != k);
        lemma_entries_map_not_found(s.drop_last(), k);
    }
}

proof fn lemma_entries_map_update(
    s: Seq<(String, serde_json::Value)>,
    i: int,
    p: (String, serde_json::Value),
)
    requires
        unique_keys(s),
        0 <= i < s.len(),
        p.0@ == s[i].0@,
    ensures
        entries_map(s.update(i, p)) == entries_map(s).insert(p.0@, p.1),
        unique_keys(s.update(i, p)),
    decreases s.len(),
{
    let u = s.update(i, p);
    assert(forall|j: int| 0 <= j < s.len() ==> u[j].0@ == s[j].0@);
    if i == s.len() - 1 {
        assert(u.drop_last() =~= s.drop_last());
        assert(u.last() == p);
        assert(entries_map(s.drop_last()).insert(p.0@, p.1) =~= entries_map(s.drop_last()).insert(
            s.last().0@,
            s.last().1,
        ).insert(p.0@, p.1));
    } else {
        assert(unique_keys(s.drop_last()));
        assert(u.drop_last() =~= s.drop_last().update(i, p));
        assert(u.last() == s.last());
        lemma_entries_map_update(s.drop_last(), i, p);
        assert(p.0@ != s.last().0@);
        assert(entries_map(s.drop_last()).insert(p.0@, p.1).insert(s.last().0@, s.last().1)
            =~= entries_map(s.drop_last()).insert(s.last().0@, s.last().1).insert(p.0@, p.1));
    }
}

proof fn lemma_entries_map_push(s: Seq<(String, serde_json::Value)>, p: (String, serde_json::Value))
    requires
        unique_keys(s),
        forall|i: int| 0 <= i < s.len() ==> s[i].0@ != p.0@,
    ensures
        entries_map(s.push(p)) == entries_map(s).insert(p.0@, p.1),
        unique_keys(s.push(p)),
    decreases s.len(),
{
    assert(s.push(p).drop_last() =~= s);
    assert(s.push(p).last() == p);
}

/// The schema registry. Documents are added over time; compilation reads a
/// point-in-time view of the mapping.
pub struct Ajv {
    entries: Vec<(String, serde_json::Value)>,
}

impl Ajv {
    /// The mapping from identifier to document that the registry holds.
    pub closed spec fn schemas(&self) -> Map<Seq<char>, serde_json::Value> {
        entries_map(self.entries@)
    }

    /// Registered identifiers are pairwise distinct.
    pub closed spec fn wf(&self) -> bool {
        unique_keys(self.entries@)
    }

    /// An empty registry.
    pub fn new() -> (r: Ajv)
        ensures
            r.wf(),
            r.schemas() == Map::<Seq<char>, serde_json::Value>::empty(),
    {
        Ajv { entries: Vec::new() }
    }

    /// The index of the entry registered under `key`, if any.
    fn find_key(&self, key: &str) -> (r: Option<usize>)
        ensures
            match r {
                Some(i) => i < self.entries@.len() && self.entries@[i as int].0@ == key@,
                None => forall|j: int|
                    0 <= j < self.entries@.len() ==> self.entries@[j].0@ != key@,
            },
    {
        let mut i: usize = 0;
        while i < self.entries.len()
            invariant
                i <= self.entries@.len(),
                forall|j: int| 0 <= j < i ==> self.entries@[j].0@ != key@,
            decreases self.entries@.len() - i,
        {
            if str_eq(self.entries[i].0.as_str(), key) {
                return Some(i);
            }
            i += 1;
        }
        None
    }

    /// Register `schema`, under `key` when one is given, otherwise under the
    /// document's declared identifier (the sentinel placeholder when it
    /// declares none). Fails exactly when no key is given and the declared
    /// identifier field is present but not a string; the registry is then
    /// unchanged. The document's structure is not validated here.
    pub fn add_schema(&mut self, schema: serde_json::Value, key: Option<String>) -> (r: Result<
        (),
        InvalidSchemaId,
    >)
        requires
            old(self).wf(),
        ensures
            final(self).wf(),
            r is Err <==> (key is None && declared_id(schema) is NotText),
            r is Ok ==> final(self).schemas() == old(self).schemas().insert(
                registered_id(key, declared_id(schema)),
                schema,
            ),
            r is Err ==> final(self).schemas() == old(self).schemas(),
    {
        let id: String = match key {
            Some(k) => k,
            None => match schema_id_field(&schema) {
                IdField::Text(s) => s,
                IdField::Missing => "unknown".to_string(),
                IdField::NotText => {
                    return Err(InvalidSchemaId);
                },
            },
        };
        let pos = self.find_key(id.as_str());
        let pair = (id, schema);
        match pos {
            Some(i) => {
                proof {
                    lemma_entries_map_update(self.entries@, i as int, pair);
                }
                self.entries[i] = pair;
            },
            None => {
                proof {
                    lemma_entries_map_push(self.entries@, pair);
                }
                self.entries.push(pair);
            },
        }
        Ok(())
    }

    /// Resolve a URI reference against the registry: an exact match first,
    /// then the URI with any trailing `#fragment` stripped, then that base
    /// with a single trailing slash stripped, then that base with a single
    /// trailing slash appended. Fails, carrying the original URI, exactly
    /// when none of the attempts matches.
    pub fn resolve(&self, uri: &str) -> (r: Result<serde_json::Value, SchemaNotFound>)
        requires
            self.wf(),
        ensures
            match r {
                Ok(d) => resolve_spec(self.schemas(), uri@) == Some(d),
                Err(e) => resolve_spec(self.schemas(), uri@) is None && e.uri@ == uri@,
            },
    {
        if let Some(i) = self.find_key(uri) {
            proof {
                lemma_entries_map_index(self.entries@, i as int);
            }
            return Ok(value_clone(&self.entries[i].1));
        }
        proof {
            lemma_entries_map_not_found(self.entries@, uri@);
        }
        let n = uri.unicode_len();
        let mut h: usize = 0;
        while h < n && uri.get_char(h) != '#'
            invariant
                n == uri@.len(),
                h <= n,
                forall|j: int| 0 <= j < h ==> uri@[j] != '#',
            decreases n - h,
        {
            h += 1;
        }
        proof {
            lemma_first_hash_index_of_scan(uri@, h as int);
        }
        let base = uri.substring_char(0, h);
        assert(base@ =~= fragment_stripped(uri@));
        if let Some(i) = self.find_key(base) {
            proof {
                lemma_entries_map_index(self.entries@, i as int);
            }
            return Ok(value_clone(&self.entries[i].1));
        }
        proof {
            lemma_entries_map_not_found(self.entries@, base@);
        }
        let stripped: &str = if h > 0 && base.get_char(h - 1) == '/' {
            let shorter = base.substring_char(0, h - 1);
            proof {
                assert(base@.subrange(0, h - 1) =~= base@.drop_last());
            }
            shorter
        } else {
            base
        };
        assert(stripped@ == trailing_slash_stripped(base@));
        if let Some(i) = self.find_key(stripped) {
            proof {
                lemma_entries_map_index(self.entries@, i as int);
            }
            return Ok(value_clone(&self.entries[i].1));
        }
        proof {
            lemma_entries_map_not_found(self.entries@, stripped@);
        }
        let mut slashed = base.to_string();
        slashed.append("/");
        proof {
            reveal_strlit("/");
            assert(slashed@ =~= base@.push('/'));
        }
        if let Some(i) = self.find_key(slashed.as_str()) {
            proof {
                lemma_entries_map_index(self.entries@, i as int);
            }
            return Ok(value_clone(&self.entries[i].1));
        }
        proof {
            lemma_entries_map_not_found(self.entries@, slashed@);
        }
        Err(SchemaNotFound { uri: uri.to_string() })
    }
}

/// Law: a registered identifier always resolves, and to its own document.
pub proof fn lemma_resolve_registered(m: Map<Seq<char>, serde_json::Value>, id: Seq<char>)
    requires
        m.contains_key(id),
    ensures
        resolve_spec(m, id) == Some(m[id]),
{
}

/// Law: when an identifier without `'#'` is registered, the same URI with
/// one trailing slash added still resolves to the registered document,
/// provided the slashed form is not itself registered (an exact match would
/// win then).
pub proof fn lemma_resolve_added_slash(m: Map<Seq<char>, serde_json::Value>, id: Seq<char>)
    requires
        m.contains_key(id),
        forall|j: int| 0 <= j < id.len() ==> id[j] != '#',
        !m.contains_key(id.push('/')),
    ensures
        resolve_spec(m, id.push('/')) == Some(m[id]),
{
    let u = id.push('/');
    assert(forall|j: int| 0 <= j < u.len() ==> u[j] != '#') by {
        assert(forall|j: int| 0 <= j < id.len() ==> u[j] == id[j]);
        assert(u[u.len() - 1] == '/');
    }
    crate::text::lemma_fragment_stripped_no_hash(u);
    assert(trailing_slash_stripped(u) =~= id);
}

/// Law: an identifier registered with one trailing slash is also found by
/// the slash-stripped query, provided the query holds no `'#'`, does not
/// end in a slash of its own, and is not itself registered (an exact match
/// would win then).
pub proof fn lemma_resolve_removed_slash(m: Map<Seq<char>, serde_json::Value>, id: Seq<char>)
    requires
        m.contains_key(id.push('/')),
        !m.contains_key(id),
        forall|j: int| 0 <= j < id.len() ==> id[j] != '#',
        id.len() == 0 || id.last() != '/',
    ensures
        resolve_spec(m, id) == Some(m[id.push('/')]),
{
    crate::text::lemma_fragment_stripped_no_hash(id);
}

} // verus!
