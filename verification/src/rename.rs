//! The validated rename mapping: old symbol name to replacement name, keys
//! unique, every replacement no longer (in UTF-8 bytes) than its original, so
//! that the new name always fits the span the string table reserves.

use vstd::prelude::*;
use vstd::string::StringExecFns;
use crate::error::Error;

verus! {

/// Whether a replacement name can overwrite an original name's backing bytes
/// in place: its UTF-8 encoding is no longer than the original's.
pub open spec fn fits(old_name: Seq<char>, new_name: Seq<char>) -> bool {
    vstd::utf8::encode_utf8(new_name).len() <= vstd::utf8::encode_utf8(old_name).len()
}

/// Whether one rename pair (old name, new name) passes validation.
pub open spec fn pair_fits(pair: (Seq<char>, Seq<char>)) -> bool {
    fits(pair.0, pair.1)
}

/// Whether every rename pair passes validation.
pub open spec fn all_pairs_fit(pairs: Seq<(Seq<char>, Seq<char>)>) -> bool {
    forall|i: int| 0 <= i < pairs.len() ==> #[trigger] pair_fits(pairs[i])
}

/// The mapping the given pairs build, in order: a later pair with the same
/// old name overwrites an earlier one.
pub open spec fn pairs_entries(pairs: Seq<(Seq<char>, Seq<char>)>) -> Map<Seq<char>, Seq<char>>
    decreases pairs.len(),
{
    if pairs.len() == 0 {
        Map::empty()
    } else {
        pairs_entries(pairs.drop_last()).insert(pairs.last().0, pairs.last().1)
    }
}

/// The compiled rename mapping, held in a hash table. (hashbrown)
#[verifier::external_body]
pub struct RenameMap {
    map: hashbrown::HashMap<String, String>,
}

/// The entries the rename mapping holds: old name to new name.
pub uninterp spec fn rename_entries(m: RenameMap) -> Map<Seq<char>, Seq<char>>;

/// The mapping with no entries.
pub open spec fn no_entries() -> Map<Seq<char>, Seq<char>> {
    Map::empty()
}

/// Relies on hashbrown::HashMap::new: the fresh map holds no entry.
#[verifier::external_body]
fn rename_map_new() -> (m: RenameMap)
    ensures
        rename_entries(m) == no_entries(),
{
    RenameMap { map: hashbrown::HashMap::new() }
}

/// Relies on hashbrown::HashMap::insert: after the call the key maps to the
/// value and every other entry is unchanged.
#[verifier::external_body]
fn rename_map_insert(m: &mut RenameMap, key: String, value: String)
    ensures
        rename_entries(*final(m)) == rename_entries(*old(m)).insert(key@, value@),
{
    m.map.insert(key, value);
}

/// Relies on hashbrown::HashMap::get: hands back the mapped value exactly
/// when the key is an entry of the map.
#[verifier::external_body]
fn rename_map_get<'a>(m: &'a RenameMap, key: &str) -> (r: Option<&'a String>)
    ensures
        match r {
            Option::Some(v) => rename_entries(*m).contains_key(key@) && v@ == rename_entries(
                *m,
            )[key@],
            Option::None => !rename_entries(*m).contains_key(key@),
        },
{
    m.map.get(key)
}

/// A mapping built from all-fitting pairs has only fitting entries.
proof fn lemma_pairs_entries_fit(pairs: Seq<(Seq<char>, Seq<char>)>)
    requires
        all_pairs_fit(pairs),
    ensures
        forall|k: Seq<char>| #[trigger]
            pairs_entries(pairs).contains_key(k) ==> fits(k, pairs_entries(pairs)[k]),
    decreases pairs.len(),
{
    if pairs.len() > 0 {
        let prefix = pairs.drop_last();
        assert forall|i: int| 0 <= i < prefix.len() implies #[trigger] pair_fits(prefix[i]) by {
            assert(prefix[i] == pairs[i]);
            assert(pair_fits(pairs[i]));
        }
        lemma_pairs_entries_fit(prefix);
        assert(pair_fits(pairs.last()));
        assert forall|k: Seq<char>| #[trigger]
            pairs_entries(pairs).contains_key(k) implies fits(k, pairs_entries(pairs)[k]) by {
            if k == pairs.last().0 {
                assert(fits(pairs.last().0, pairs.last().1));
            } else {
                assert(pairs_entries(prefix).contains_key(k));
            }
        }
    }
}

impl RenameMap {
    /// The entries this mapping holds.
    pub open spec fn spec_entries(self) -> Map<Seq<char>, Seq<char>> {
        rename_entries(self)
    }

    /// Well-formedness: every replacement fits its original's byte span.
    pub open spec fn all_fit(self) -> bool {
        forall|k: Seq<char>| #[trigger]
            rename_entries(self).contains_key(k) ==> fits(k, rename_entries(self)[k])
    }

    /// Build the mapping from raw rename pairs, in order. Fails with a
    /// configuration error exactly when some replacement is longer than its
    /// original name; nothing is touched besides the mapping itself.
    pub fn build(pairs: &Vec<(String, String)>) -> (r: Result<RenameMap, Error>)
        ensures
            r is Ok <==> all_pairs_fit(pairs.deep_view()),
            r matches Ok(m) ==> rename_entries(m) == pairs_entries(pairs.deep_view())
                && m.all_fit(),
            r matches Err(e) ==> e.is_config_error(),
    {
        broadcast use vstd::slice::group_slice_axioms;

        let ghost dv = pairs.deep_view();
        let mut m = rename_map_new();
        let mut i: usize = 0;
        while i < pairs.len()
            invariant
                i <= pairs.len(),
                dv == pairs.deep_view(),
                dv.len() == pairs.len(),
                rename_entries(m) == pairs_entries(dv.take(i as int)),
                forall|j: int| 0 <= j < i ==> #[trigger] pair_fits(dv[j]),
            decreases pairs.len() - i,
        {
            let old_name = &pairs[i].0;
            let new_name = &pairs[i].1;
            proof {
                assert(dv[i as int] == pairs@[i as int].deep_view());
                assert(dv[i as int].0 == pairs@[i as int].0@);
                assert(dv[i as int].1 == pairs@[i as int].1@);
            }
            let new_bytes = new_name.as_str().as_bytes();
            let old_bytes = old_name.as_str().as_bytes();
            if new_bytes.len() > old_bytes.len() {
                let msg = "Replacement symbol names cannot have more characters than the original name. Symbol '".to_owned().concat(
                    old_name.as_str(),
                ).concat("' cannot be renamed to '").concat(new_name.as_str()).concat("'.");
                assert(!pair_fits(dv[i as int]));
                return Err(Error::Message(msg));
            }
            assert(pair_fits(dv[i as int]));
            rename_map_insert(&mut m, old_name.clone(), new_name.clone());
            proof {
                assert(dv.take(i + 1).drop_last() =~= dv.take(i as int));
                assert(dv.take(i + 1).last() == dv[i as int]);
            }
            i = i + 1;
        }
        proof {
            assert(dv.take(dv.len() as int) =~= dv);
            lemma_pairs_entries_fit(dv);
        }
        Ok(m)
    }

    /// Look one symbol name up: the replacement exactly when the name is a
    /// key of the mapping, nothing otherwise.
    pub fn lookup<'a>(&'a self, name: &str) -> (r: Option<&'a String>)
        ensures
            match r {
                Option::Some(v) => self.spec_entries().contains_key(name@) && v@
                    == self.spec_entries()[name@],
                Option::None => !self.spec_entries().contains_key(name@),
            },
    {
        rename_map_get(self, name)
    }

    /// An empty mapping, for runs that rename nothing.
    pub fn empty() -> (m: RenameMap)
        ensures
            m.spec_entries() == no_entries(),
            m.all_fit(),
    {
        rename_map_new()
    }
}

} // verus!
