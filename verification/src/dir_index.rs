use vstd::prelude::*;
use vstd::string::StrSliceExecFns;

use crate::text::str_eq;

verus! {

/// One direct child of the data directory, as the caller saw it while
/// listing: either a readable entry with its filename and file type, or a
/// record that reading or decoding the entry failed.
pub enum DirEntry {
    /// The entry could not be read, or its file type could not be determined.
    Fault,
    /// The entry's filename is not valid text.
    Undecodable,
    /// A readable entry: its filename and whether it is a regular file.
    Named { name: String, is_file: bool },
}

/// Why an index could not be built from a directory.
#[derive(Clone, Copy, Debug, PartialEq, Eq, Structural)]
pub enum IndexError {
    /// The directory itself could not be opened or read.
    DirectoryUnreadable,
    /// Some entry of the directory could not be read.
    EntryUnreadable,
    /// Some entry's filename could not be decoded as text.
    NameNotText,
}

/// A filename that qualifies for the index: a stem followed by the exact,
/// lower-case extension `.json`. The stem is never empty, so a bare
/// `.json` (a hidden file with no extension) does not qualify.
pub open spec fn is_json_name(s: Seq<char>) -> bool {
    s.len() > 5 && s.subrange(s.len() - 5, s.len() as int) == ".json"@
}

/// The resource name of a qualifying filename: the stem, with the trailing
/// `.json` removed.
pub open spec fn stem_of(s: Seq<char>) -> Seq<char> {
    s.take(s.len() - 5)
}

/// Whether a directory entry contributes a resource: a regular file whose
/// name qualifies.
pub open spec fn qualifies(e: DirEntry) -> bool {
    match e {
        DirEntry::Named { name, is_file } => is_file && is_json_name(name@),
        _ => false,
    }
}

/// The filename of a named entry.
pub open spec fn entry_name(e: DirEntry) -> Seq<char> {
    match e {
        DirEntry::Named { name, .. } => name@,
        _ => Seq::empty(),
    }
}

/// The resources a single entry contributes to the index.
pub open spec fn entry_stems(e: DirEntry) -> Seq<Seq<char>> {
    if qualifies(e) {
        seq![stem_of(entry_name(e))]
    } else {
        seq![]
    }
}

/// The resource names of a directory listing, in enumeration order.
pub open spec fn index_names(entries: Seq<DirEntry>) -> Seq<Seq<char>>
    decreases entries.len(),
{
    if entries.len() == 0 {
        seq![]
    } else {
        index_names(entries.drop_last()) + entry_stems(entries.last())
    }
}

/// The error of a single entry, if it has one.
pub open spec fn entry_problem(e: DirEntry) -> Option<IndexError> {
    match e {
        DirEntry::Fault => Some(IndexError::EntryUnreadable),
        DirEntry::Undecodable => Some(IndexError::NameNotText),
        DirEntry::Named { .. } => None,
    }
}

/// The error of the first problematic entry of a listing, if any.
pub open spec fn first_problem(entries: Seq<DirEntry>) -> Option<IndexError>
    decreases entries.len(),
{
    if entries.len() == 0 {
        None
    } else if entry_problem(entries.first()) is Some {
        entry_problem(entries.first())
    } else {
        first_problem(entries.drop_first())
    }
}

/// If `name` qualifies, its stem; otherwise nothing.
pub fn json_stem(name: &str) -> (r: Option<String>)
    ensures
        is_json_name(name@) ==> (r matches Some(st) && st@ == stem_of(name@)),
        !is_json_name(name@) ==> r is None,
{
    let n = name.unicode_len();
    if n < 6 {
        return None;
    }
    let ext = name.substring_char(n - 5, n);
    if str_eq(ext, ".json") {
        let stem = name.substring_char(0, n - 5);
        proof {
            assert(stem@ == stem_of(name@));
        }
        Some(stem.to_owned())
    } else {
        None
    }
}

/// Builds the resource index from a directory listing, or reports why it
/// cannot be built. `listing` is `None` when the directory itself could not
/// be read; a problematic entry fails the whole build with the error of the
/// first such entry. On success the index holds, in enumeration order, the
/// stem of every regular file whose name has the exact extension `.json`.
pub fn build_index(listing: Option<Vec<DirEntry>>) -> (r: Result<Vec<String>, IndexError>)
    ensures
        listing is None ==> (r matches Err(e) && e == IndexError::DirectoryUnreadable),
        listing matches Some(entries) ==> match first_problem(entries@) {
            Some(problem) => (r matches Err(e) && e == problem),
            None => (r matches Ok(names) && names.deep_view() == index_names(entries@)),
        },
{
    let entries = match listing {
        None => {
            return Err(IndexError::DirectoryUnreadable);
        },
        Some(entries) => entries,
    };
    let mut names: Vec<String> = Vec::new();
    let mut i: usize = 0;
    let n = entries.len();
    while i < n
        invariant
            listing == Some(entries),
            n == entries@.len(),
            i <= n,
            forall|j: int| 0 <= j < i ==> entry_problem(entries@[j]) is None,
            names.deep_view() == index_names(entries@.take(i as int)),
        decreases n - i,
    {
        let entry = &entries[i];
        match entry {
            DirEntry::Fault => {
                proof {
                    lemma_first_problem_skip(entries@, i as int);
                    assert(entries@.skip(i as int).first() == entries@[i as int]);
                }
                return Err(IndexError::EntryUnreadable);
            },
            DirEntry::Undecodable => {
                proof {
                    lemma_first_problem_skip(entries@, i as int);
                    assert(entries@.skip(i as int).first() == entries@[i as int]);
                }
                return Err(IndexError::NameNotText);
            },
            DirEntry::Named { name, is_file } => {
                if *is_file {
                    match json_stem(name.as_str()) {
                        Some(stem) => {
                            names.push(stem);
                        },
                        None => {},
                    }
                }
            },
        }
        proof {
            lemma_index_names_step(entries@, i as int);
            assert(names.deep_view() =~= index_names(entries@.take(i + 1)));
        }
        i += 1;
    }
    proof {
        lemma_first_problem_skip(entries@, n as int);
        assert(entries@.skip(n as int) =~= Seq::<DirEntry>::empty());
        assert(entries@.take(n as int) =~= entries@);
    }
    Ok(names)
}

/// Every regular file with a qualifying name contributes its stem to the
/// index: nothing that should be served is dropped.
pub proof fn lemma_index_complete(entries: Seq<DirEntry>)
    ensures
        forall|i: int|
            0 <= i < entries.len() && qualifies(entries[i]) ==> index_names(entries).contains(
                stem_of(entry_name(entries[i])),
            ),
    decreases entries.len(),
{
    if entries.len() > 0 {
        let prefix = entries.drop_last();
        lemma_index_complete(prefix);
        let ix = index_names(entries);
        let ixp = index_names(prefix);
        assert forall|i: int| 0 <= i < entries.len() && qualifies(entries[i]) implies ix.contains(
            stem_of(entry_name(entries[i])),
        ) by {
            let st = stem_of(entry_name(entries[i]));
            if i < entries.len() - 1 {
                assert(prefix[i] == entries[i]);
                assert(ixp.contains(st));
                let k = choose|k: int| 0 <= k < ixp.len() && ixp[k] == st;
                assert(ix[k] == st);
            } else {
                assert(entries.last() == entries[i]);
                assert(ix[ixp.len() as int] == st);
            }
        }
    }
}

/// Whether `v` is the stem of some qualifying entry of the listing.
pub open spec fn stems_from(entries: Seq<DirEntry>, v: Seq<char>) -> bool {
    exists|i: int|
        0 <= i < entries.len() && #[trigger] qualifies(entries[i]) && v == stem_of(
            entry_name(entries[i]),
        )
}

/// Everything in the index is the stem of some regular file with a
/// qualifying name: no other extension, mixed-case variant, or directory
/// entry is ever served.
pub proof fn lemma_index_sound(entries: Seq<DirEntry>)
    ensures
        forall|k: int|
            0 <= k < index_names(entries).len() ==> stems_from(
                entries,
                #[trigger] index_names(entries)[k],
            ),
    decreases entries.len(),
{
    if entries.len() > 0 {
        let prefix = entries.drop_last();
        lemma_index_sound(prefix);
        let ix = index_names(entries);
        let ixp = index_names(prefix);
        assert forall|k: int| 0 <= k < ix.len() implies stems_from(entries, ix[k]) by {
            if k < ixp.len() {
                assert(ix[k] == ixp[k]);
                let i = choose|i: int|
                    0 <= i < prefix.len() && #[trigger] qualifies(prefix[i]) && ixp[k] == stem_of(
                        entry_name(prefix[i]),
                    );
                assert(prefix[i] == entries[i]);
                assert(qualifies(entries[i]) && ix[k] == stem_of(entry_name(entries[i])));
            } else {
                assert(qualifies(entries.last()));
                let i = entries.len() - 1;
                assert(entries[i] == entries.last());
                assert(qualifies(entries[i]) && ix[k] == stem_of(entry_name(entries[i])));
            }
        }
    }
}

/// Stripping the `.json` suffix is injective on qualifying names: two
/// distinct filenames never collapse to the same resource name.
pub proof fn lemma_stem_injective(a: Seq<char>, b: Seq<char>)
    requires
        is_json_name(a),
        is_json_name(b),
        stem_of(a) == stem_of(b),
    ensures
        a == b,
{
    assert(stem_of(a).len() == a.len() - 5);
    assert(stem_of(b).len() == b.len() - 5);
    assert(a.len() == b.len());
    let ext = ".json"@;
    assert forall|j: int| 0 <= j < a.len() implies a[j] == b[j] by {
        if j < a.len() - 5 {
            assert(a[j] == stem_of(a)[j]);
            assert(b[j] == stem_of(b)[j]);
        } else {
            assert(a.subrange(a.len() - 5, a.len() as int)[j - (a.len() - 5)] == a[j]);
            assert(b.subrange(b.len() - 5, b.len() as int)[j - (b.len() - 5)] == b[j]);
            assert(a[j] == ext[j - (a.len() - 5)]);
        }
    }
    assert(a =~= b);
}

/// When the listing's qualifying filenames are distinct — as the direct
/// children of one directory always are — each resource name appears in the
/// index exactly once: the index never holds duplicates.
pub proof fn lemma_index_unique(entries: Seq<DirEntry>)
    requires
        forall|i: int, j: int|
            0 <= i < j < entries.len() && qualifies(entries[i]) && qualifies(entries[j])
                ==> entry_name(entries[i]) != entry_name(entries[j]),
    ensures
        forall|k: int, l: int|
            0 <= k < l < index_names(entries).len() ==> index_names(entries)[k] != index_names(
                entries,
            )[l],
    decreases entries.len(),
{
    if entries.len() > 0 {
        let prefix = entries.drop_last();
        assert forall|i: int, j: int|
            0 <= i < j < prefix.len() && qualifies(prefix[i]) && qualifies(
                prefix[j],
            ) implies entry_name(prefix[i]) != entry_name(prefix[j]) by {
            assert(prefix[i] == entries[i] && prefix[j] == entries[j]);
        }
        lemma_index_unique(prefix);
        lemma_index_sound(prefix);
        let ix = index_names(entries);
        let ixp = index_names(prefix);
        let last = entries.last();
        assert forall|k: int, l: int| 0 <= k < l < ix.len() implies ix[k] != ix[l] by {
            if l < ixp.len() {
                assert(ix[k] == ixp[k] && ix[l] == ixp[l]);
            } else {
                // `l` names the contribution of the last entry, so the last
                // entry qualifies and ix[l] is its stem.
                assert(qualifies(last));
                assert(ix[l] == stem_of(entry_name(last)));
                assert(ix[k] == ixp[k]);
                assert(stems_from(prefix, ixp[k]));
                let i = choose|i: int|
                    0 <= i < prefix.len() && #[trigger] qualifies(prefix[i]) && ixp[k] == stem_of(
                        entry_name(prefix[i]),
                    );
                assert(prefix[i] == entries[i]);
                assert(entries.len() - 1 > i);
                assert(entries[entries.len() - 1] == last);
                assert(entry_name(entries[i]) != entry_name(last));
                if stem_of(entry_name(prefix[i])) == stem_of(entry_name(last)) {
                    lemma_stem_injective(entry_name(prefix[i]), entry_name(last));
                }
            }
        }
    }
}

/// While every entry before `i` is problem-free, the first problem of the
/// whole listing is the first problem of the rest.
proof fn lemma_first_problem_skip(entries: Seq<DirEntry>, i: int)
    requires
        0 <= i <= entries.len(),
        forall|j: int| 0 <= j < i ==> entry_problem(entries[j]) is None,
    ensures
        first_problem(entries) == first_problem(entries.skip(i)),
    decreases i,
{
    if i == 0 {
        assert(entries.skip(0) =~= entries);
    } else {
        assert(entry_problem(entries.first()) is None);
        lemma_first_problem_skip(entries.drop_first(), i - 1);
        assert(entries.drop_first().skip(i - 1) =~= entries.skip(i));
    }
}

/// One step of the index recursion: the index of a prefix one longer is the
/// index of the prefix plus the contribution of the next entry.
proof fn lemma_index_names_step(entries: Seq<DirEntry>, i: int)
    requires
        0 <= i < entries.len(),
    ensures
        index_names(entries.take(i + 1)) == index_names(entries.take(i)) + entry_stems(
            entries[i],
        ),
{
    let longer = entries.take(i + 1);
    assert(longer.len() == i + 1);
    assert(longer.drop_last() =~= entries.take(i));
    assert(longer.last() == entries[i]);
}

} // verus!
