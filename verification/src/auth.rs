//! Authentication gate: a static credential map built once from a
//! configuration string of `identifier:secret` pairs.
//!
//! The configuration string is split on `,` into entries and each entry on
//! `:`; entries with any other field count are silently dropped, and a later
//! entry for an identifier overwrites an earlier one.

use vstd::prelude::*;

use crate::errors::AdminServiceError;

verus! {

/// How a string splits on a separator: the separator-free pieces between the
/// occurrences of `sep`, in order. Splitting the empty string gives one empty
/// piece, as `str::split` does.
pub open spec fn split_on(s: Seq<char>, sep: char) -> Seq<Seq<char>>
    decreases s.len(),
{
    if s.len() == 0 {
        seq![Seq::<char>::empty()]
    } else if s[0] == sep {
        seq![Seq::<char>::empty()] + split_on(s.skip(1), sep)
    } else {
        let rest = split_on(s.skip(1), sep);
        seq![seq![s[0]] + rest[0]] + rest.skip(1)
    }
}

/// The views of a vector of owned pieces.
spec fn views_of(parts: Seq<String>) -> Seq<Seq<char>> {
    parts.map_values(|p: String| p@)
}

/// A separator-free string splits into exactly itself.
proof fn lemma_split_on_none(s: Seq<char>, sep: char)
    requires
        forall|j: int| 0 <= j < s.len() ==> s[j] != sep,
    ensures
        split_on(s, sep) == seq![s],
    decreases s.len(),
{
    if s.len() == 0 {
        assert(seq![Seq::<char>::empty()] =~~= seq![s]);
    } else {
        lemma_split_on_none(s.skip(1), sep);
        let rest = split_on(s.skip(1), sep);
        assert(rest[0] == s.skip(1));
        assert(seq![s[0]] + s.skip(1) =~= s);
        assert(seq![seq![s[0]] + rest[0]] + rest.skip(1) =~~= seq![s]);
    }
}

/// Splitting at the first separator occurrence: the piece before it, then
/// the split of what follows it.
proof fn lemma_split_on_first(s: Seq<char>, sep: char, i: int)
    requires
        0 <= i < s.len(),
        s[i] == sep,
        forall|j: int| 0 <= j < i ==> s[j] != sep,
    ensures
        split_on(s, sep) == seq![s.subrange(0, i)] + split_on(s.skip(i + 1), sep),
    decreases i,
{
    if i == 0 {
        assert(s.subrange(0, 0) =~= Seq::<char>::empty());
        assert(seq![Seq::<char>::empty()] + split_on(s.skip(1), sep) =~~= seq![s.subrange(0, 0)]
            + split_on(s.skip(1), sep));
    } else {
        let t = s.skip(1);
        assert(forall|j: int| 0 <= j < i - 1 ==> t[j] == s[j + 1] && t[j] != sep);
        assert(t[i - 1] == sep);
        lemma_split_on_first(t, sep, i - 1);
        let rest = split_on(t, sep);
        assert(rest[0] == t.subrange(0, i - 1));
        assert(rest.skip(1) =~= split_on(t.skip(i), sep));
        assert(seq![s[0]] + t.subrange(0, i - 1) =~= s.subrange(0, i));
        assert(t.skip(i) =~= s.skip(i + 1));
        assert(seq![seq![s[0]] + rest[0]] + rest.skip(1) =~~= seq![s.subrange(0, i)] + split_on(
            s.skip(i + 1),
            sep,
        ));
    }
}

/// Splits `s` on `sep` into owned pieces, exactly as `split_on` describes.
fn split_str(s: &str, sep: char) -> (parts: Vec<String>)
    ensures
        views_of(parts@) == split_on(s@, sep),
{
    let n: usize = s.unicode_len();
    let mut parts: Vec<String> = Vec::new();
    let mut start: usize = 0;
    let mut i: usize = 0;
    proof {
        assert(views_of(parts@) =~= Seq::<Seq<char>>::empty());
        assert(s@.skip(0) =~= s@);
        assert(views_of(parts@) + split_on(s@, sep) =~= split_on(s@, sep));
    }
    while i < n
        invariant
            n == s@.len(),
            start <= i <= n,
            forall|j: int| start <= j < i ==> s@[j] != sep,
            split_on(s@, sep) == views_of(parts@) + split_on(s@.skip(start as int), sep),
        decreases n - i,
    {
        let c = s.get_char(i);
        if c == sep {
            let piece: String = s.substring_char(start, i).to_owned();
            proof {
                let u = s@.skip(start as int);
                assert(forall|j: int| 0 <= j < i - start ==> u[j] == s@[j + start] && u[j] != sep);
                assert(u[i - start] == sep);
                lemma_split_on_first(u, sep, i - start);
                assert(u.subrange(0, i - start) =~= s@.subrange(start as int, i as int));
                assert(u.skip(i - start + 1) =~= s@.skip(i + 1));
                assert(views_of(parts@.push(piece)) =~= views_of(parts@).push(piece@));
                assert(views_of(parts@) + (seq![piece@] + split_on(s@.skip(i + 1), sep)) =~= (
                views_of(parts@) + seq![piece@]) + split_on(s@.skip(i + 1), sep));
                assert(views_of(parts@) + seq![piece@] =~= views_of(parts@).push(piece@));
            }
            parts.push(piece);
            start = i + 1;
        }
        i += 1;
    }
    let piece: String = s.substring_char(start, n).to_owned();
    proof {
        let u = s@.skip(start as int);
        assert(forall|j: int| 0 <= j < u.len() ==> u[j] == s@[j + start] && u[j] != sep);
        lemma_split_on_none(u, sep);
        assert(u =~= s@.subrange(start as int, n as int));
        assert(views_of(parts@.push(piece)) =~= views_of(parts@).push(piece@));
        assert(views_of(parts@) + seq![piece@] =~= views_of(parts@).push(piece@));
    }
    parts.push(piece);
    parts
}

/// The credential map an entry list denotes: entries that split on `:` into
/// exactly two fields become bindings, in order, so a later entry for the
/// same identifier overwrites an earlier one; every other entry is dropped.
pub open spec fn creds_from_entries(entries: Seq<Seq<char>>) -> Map<Seq<char>, Seq<char>>
    decreases entries.len(),
{
    if entries.len() == 0 {
        Map::empty()
    } else {
        let m = creds_from_entries(entries.drop_last());
        let parts = split_on(entries.last(), ':');
        if parts.len() == 2 {
            m.insert(parts[0], parts[1])
        } else {
            m
        }
    }
}

/// The credential map a whole configuration string denotes.
pub open spec fn credentials_of(s: Seq<char>) -> Map<Seq<char>, Seq<char>> {
    creds_from_entries(split_on(s, ','))
}

/// The map denoted by a list of already-separated identifier/secret pairs,
/// later pairs overwriting earlier ones.
pub open spec fn entries_as_map(entries: Seq<(String, String)>) -> Map<Seq<char>, Seq<char>>
    decreases entries.len(),
{
    if entries.len() == 0 {
        Map::empty()
    } else {
        entries_as_map(entries.drop_last()).insert(entries.last().0@, entries.last().1@)
    }
}

/// The pair list denotes the empty map exactly when it is empty.
proof fn lemma_entries_as_map_empty(entries: Seq<(String, String)>)
    ensures
        (entries_as_map(entries) == Map::<Seq<char>, Seq<char>>::empty()) <==> entries.len() == 0,
{
    if entries.len() == 0 {
    } else {
        assert(entries_as_map(entries).contains_key(entries.last().0@));
        assert(!Map::<Seq<char>, Seq<char>>::empty().contains_key(entries.last().0@));
    }
}

/// The static credential map: identifier/secret pairs in configuration
/// order. Its view is the map they denote, later pairs overwriting earlier.
pub struct Credentials {
    pub entries: Vec<(String, String)>,
}

impl View for Credentials {
    type V = Map<Seq<char>, Seq<char>>;

    open spec fn view(&self) -> Map<Seq<char>, Seq<char>> {
        entries_as_map(self.entries@)
    }
}

impl Credentials {
    /// Builds the credential map from the configuration string. Malformed
    /// entries are dropped; construction never fails.
    pub fn parse(rpc_auth: &str) -> (creds: Credentials)
        ensures
            creds@ == credentials_of(rpc_auth@),
    {
        let entry_strs: Vec<String> = split_str(rpc_auth, ',');
        let ghost entry_views: Seq<Seq<char>> = views_of(entry_strs@);
        let mut items: Vec<(String, String)> = Vec::new();
        let mut i: usize = 0;
        while i < entry_strs.len()
            invariant
                i <= entry_strs.len(),
                entry_views == views_of(entry_strs@),
                entry_views == split_on(rpc_auth@, ','),
                entries_as_map(items@) == creds_from_entries(entry_views.take(i as int)),
            decreases entry_strs.len() - i,
        {
            let entry: &String = &entry_strs[i];
            let mut parts: Vec<String> = split_str(entry.as_str(), ':');
            proof {
                assert(entry_views.take(i + 1).drop_last() =~= entry_views.take(i as int));
                assert(entry_views.take(i + 1).last() == entry_views[i as int]);
                assert(views_of(parts@).len() == parts@.len());
            }
            if parts.len() == 2 {
                let value: String = parts.pop().unwrap();
                let key: String = parts.pop().unwrap();
                proof {
                    let sp = split_on(entry_views[i as int], ':');
                    assert(key@ == views_of(parts@.push(key).push(value))[0]);
                    assert(value@ == views_of(parts@.push(key).push(value))[1]);
                    assert(items@.push((key, value)).drop_last() =~= items@);
                    assert(items@.push((key, value)).last() == (key, value));
                }
                items.push((key, value));
            }
            i += 1;
        }
        proof {
            assert(entry_views.take(entry_strs.len() as int) =~= entry_views);
        }
        Credentials { entries: items }
    }

    /// Succeeds exactly when the identifier is known and the supplied secret
    /// matches the recorded one.
    pub fn authenticate(&self, identifier: &String, secret: &String) -> (r: Result<
        (),
        AdminServiceError,
    >)
        ensures
            r is Ok <==> self@.contains_key(identifier@) && self@[identifier@] == secret@,
            r is Err ==> r->Err_0 == AdminServiceError::Unauthenticated,
    {
        let mut ok: bool = false;
        let mut i: usize = 0;
        while i < self.entries.len()
            invariant
                i <= self.entries.len(),
                ({
                    let m = entries_as_map(self.entries@.take(i as int));
                    ok <==> m.contains_key(identifier@) && m[identifier@] == secret@
                }),
            decreases self.entries.len() - i,
        {
            let pair: &(String, String) = &self.entries[i];
            if pair.0.eq(identifier) {
                ok = pair.1.eq(secret);
            }
            proof {
                assert(self.entries@.take(i + 1).drop_last() =~= self.entries@.take(i as int));
                assert(self.entries@.take(i + 1).last() == self.entries@[i as int]);
            }
            i += 1;
        }
        proof {
            assert(self.entries@.take(self.entries.len() as int) =~= self.entries@);
        }
        if ok {
            Ok(())
        } else {
            Err(AdminServiceError::Unauthenticated)
        }
    }

    /// True exactly when no credentials are configured.
    pub fn is_empty(&self) -> (r: bool)
        ensures
            r <==> self@ == Map::<Seq<char>, Seq<char>>::empty(),
    {
        proof {
            lemma_entries_as_map_empty(self.entries@);
        }
        self.entries.is_empty()
    }
}

} // verus!
