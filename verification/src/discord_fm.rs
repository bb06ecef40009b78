//! The Discord.FM playlist libraries: named from their files, found by
//! lowercased name, and listed in sorted order.
use vstd::prelude::*;
use crate::error::Error;
use crate::json::{json_string_list, tracks_from_json};
use crate::sort::{lex_order, sort_strings};
use crate::table::{
    Table, distinct_keys, lemma_lookup_with_entry, lemma_with_entry_distinct, lookup, with_entry,
};
use crate::text::{
    chars_of, join, join_strings, last_index_of, lemma_last_index_of, lowercase, rfind_char,
    to_lowercase, views,
};

verus! {

pub struct OidId {
    pub id: String,
}

/// A song's id: either a database object id or a raw string.
pub enum Id {
    Oid(OidId),
    Raw(String),
}

pub open spec fn id_text(id: Id) -> Seq<char> {
    match id {
        Id::Oid(oid) => oid.id@,
        Id::Raw(raw) => raw@,
    }
}

impl Id {
    /// The id as a string, whichever form it has.
    pub fn raw(&self) -> (r: String)
        ensures
            r@ == id_text(*self),
    {
        match self {
            Id::Oid(oid) => oid.id.clone(),
            Id::Raw(id) => id.clone(),
        }
    }
}

/// A song of a playlist with its track blob; `I` is the song's metadata.
pub struct PlaylistItem<I> {
    pub info: I,
    pub track: String,
}

pub struct Library<I> {
    pub name: String,
    pub items: Vec<PlaylistItem<I>>,
}

pub struct DiscordFm<I> {
    /// The names of all libraries, sorted and separated by ", ".
    pub list: String,
    /// The libraries, each under its lowercased name.
    pub libraries: Table<Library<I>>,
}

/// The legible name of a playlist file: the file name up to its last '.',
/// with each '_' made a space. A file name without a '.' has none.
pub open spec fn legible_name(file_name: Seq<char>) -> Option<Seq<char>> {
    let d = last_index_of(file_name, '.');
    if d < 0 {
        None
    } else {
        Some(file_name.take(d).map_values(|c: char| if c == '_' { ' ' } else { c }))
    }
}

/// The libraries of a list of (legible name, songs) pairs, each under its
/// lowercased name; a later one replaces an earlier one with the same key.
pub open spec fn library_table<I>(libs: Seq<(String, Vec<PlaylistItem<I>>)>) -> Seq<(Seq<char>, Library<I>)>
    decreases libs.len(),
{
    if libs.len() == 0 {
        Seq::empty()
    } else {
        let last = libs.last();
        with_entry(
            library_table(libs.drop_last()),
            lowercase(last.0@),
            Library { name: last.0, items: last.1 },
        )
    }
}

/// The library of the last pair whose lowercased name is `key`, if any.
pub open spec fn last_library_named<I>(libs: Seq<(String, Vec<PlaylistItem<I>>)>, key: Seq<char>) -> Option<Library<I>>
    decreases libs.len(),
{
    if libs.len() == 0 {
        None
    } else if lowercase(libs.last().0@) == key {
        Some(Library { name: libs.last().0, items: libs.last().1 })
    } else {
        last_library_named(libs.drop_last(), key)
    }
}

pub proof fn lemma_library_table_distinct<I>(libs: Seq<(String, Vec<PlaylistItem<I>>)>)
    ensures
        distinct_keys(library_table(libs)),
    decreases libs.len(),
{
    if libs.len() > 0 {
        lemma_library_table_distinct(libs.drop_last());
        let last = libs.last();
        lemma_with_entry_distinct(library_table(libs.drop_last()), lowercase(last.0@), Library { name: last.0, items: last.1 });
    }
}

/// Looking a library up by the lowercase form of a name finds the last
/// library read under a name with that lowercase form, and nothing when
/// there is none.
pub proof fn lemma_library_lookup<I>(libs: Seq<(String, Vec<PlaylistItem<I>>)>, name: Seq<char>)
    ensures
        lookup(library_table(libs), lowercase(name)) == last_library_named(libs, lowercase(name)),
    decreases libs.len(),
{
    if libs.len() > 0 {
        lemma_library_lookup(libs.drop_last(), name);
        lemma_library_table_distinct(libs.drop_last());
        let last = libs.last();
        lemma_lookup_with_entry(
            library_table(libs.drop_last()),
            lowercase(last.0@),
            Library { name: last.0, items: last.1 },
            lowercase(name),
        );
    }
}

/// The names of the libraries of a table, in the table's order.
pub open spec fn library_names<I>(pairs: Seq<(Seq<char>, Library<I>)>) -> Seq<Seq<char>> {
    pairs.map_values(|p: (Seq<char>, Library<I>)| p.1.name@)
}

/// The listing of the libraries: their names sorted, separated by ", ".
pub open spec fn library_list<I>(pairs: Seq<(Seq<char>, Library<I>)>) -> Seq<char> {
    join(library_names(pairs).sort_by(lex_order()), ", "@)
}

impl<I> DiscordFm<I> {
    /// The legible name of a playlist file, or `None` when its name has no '.'.
    pub fn library_name(file_name: &str) -> (r: Option<String>)
        ensures
            match legible_name(file_name@) {
                Some(n) => r matches Some(s) && s@ == n,
                None => r is None,
            },
    {
        let v = chars_of(file_name);
        let dot = match rfind_char(&v, '.') {
            Some(d) => d,
            None => {
                return None;
            },
        };
        proof {
            lemma_last_index_of(v@, '.');
        }
        let mut name = String::new();
        let mut k: usize = 0;
        while k < dot
            invariant
                k <= dot < v@.len(),
                name@ == v@.take(k as int).map_values(|c: char| if c == '_' { ' ' } else { c }),
            decreases dot - k,
        {
            let c = v[k];
            if c == '_' {
                name.push(' ');
            } else {
                name.push(c);
            }
            assert(v@.take(k + 1).map_values(|c: char| if c == '_' { ' ' } else { c }) =~= v@.take(
                k as int,
            ).map_values(|c: char| if c == '_' { ' ' } else { c }).push(if c == '_' { ' ' } else { c }));
            k = k + 1;
        }
        Some(name)
    }

    /// Reads a playlist's track blobs from the JSON list in `blob_json` and
    /// pairs each song with its blob, in order, stopping at whichever runs
    /// out first. Bytes that are not a JSON list of strings fail.
    pub fn items_from_blob_json(songs: Vec<I>, blob_json: &[u8]) -> (r: core::result::Result<Vec<PlaylistItem<I>>, Error>)
        ensures
            r is Ok <==> json_string_list(blob_json@) is Some,
            r matches Err(e) ==> e is SerdeJson,
            r matches Ok(items) ==> {
                let blobs = json_string_list(blob_json@)->0;
                &&& items@.len() == if songs@.len() <= blobs.len() {
                    songs@.len()
                } else {
                    blobs.len()
                }
                &&& forall|i: int| 0 <= i < items@.len() ==> (#[trigger] items@[i]).info == songs@[i]
                    && items@[i].track@ == blobs[i]
            },
    {
        let blobs = match tracks_from_json(blob_json) {
            Ok(blobs) => blobs,
            Err(e) => {
                return Err(e);
            },
        };
        let ghost bv = views(blobs@);
        let items = Self::pair_items(songs, blobs);
        assert forall|i: int| 0 <= i < items@.len() implies (#[trigger] items@[i]).track@ == bv[i] by {}
        Ok(items)
    }

    /// Pairs each song with its track blob, in order, stopping at whichever runs out first.
    pub fn pair_items(songs: Vec<I>, blobs: Vec<String>) -> (r: Vec<PlaylistItem<I>>)
        ensures
            r@.len() == if songs@.len() <= blobs@.len() {
                songs@.len()
            } else {
                blobs@.len()
            },
            forall|i: int| 0 <= i < r@.len() ==> (#[trigger] r@[i]).info == songs@[i] && r@[i].track
                == blobs@[i],
    {
        let ghost all_songs = songs@;
        let ghost all_blobs = blobs@;
        let mut songs = songs;
        let mut blobs = blobs;
        let mut items: Vec<PlaylistItem<I>> = Vec::new();
        while songs.len() > 0 && blobs.len() > 0
            invariant
                items@.len() + songs@.len() == all_songs.len(),
                items@.len() + blobs@.len() == all_blobs.len(),
                songs@ == all_songs.skip(items@.len() as int),
                blobs@ == all_blobs.skip(items@.len() as int),
                forall|i: int| 0 <= i < items@.len() ==> (#[trigger] items@[i]).info == all_songs[i]
                    && items@[i].track == all_blobs[i],
            decreases songs.len(),
        {
            let ghost n: int = items@.len() as int;
            let info = songs.remove(0);
            let track = blobs.remove(0);
            items.push(PlaylistItem { info, track });
            assert(songs@ =~= all_songs.skip(n + 1));
            assert(blobs@ =~= all_blobs.skip(n + 1));
        }
        items
    }

    /// Builds the catalogue from the libraries read from disk, in the order
    /// they were read: each (legible name, songs) pair under its lowercased
    /// name, and the sorted listing of their names.
    pub fn from_libraries(libs: Vec<(String, Vec<PlaylistItem<I>>)>) -> (r: Self)
        ensures
            r.libraries.pairs() == library_table(libs@),
            r.list@ == library_list(library_table(libs@)),
    {
        let ghost all = libs@;
        let total = libs.len();
        assert(all.len() == total);
        let mut rest = libs;
        let mut libraries: Table<Library<I>> = Table::new();
        let mut i: usize = 0;
        while rest.len() > 0
            invariant
                i + rest@.len() == all.len(),
                all.len() <= usize::MAX,
                rest@ == all.skip(i as int),
                libraries.pairs() == library_table(all.take(i as int)),
            decreases rest.len(),
        {
            let (name, items) = rest.remove(0);
            assert(all.take(i + 1).drop_last() =~= all.take(i as int));
            assert(all.take(i + 1).last() == all[i as int]);
            let key = to_lowercase(name.as_str());
            libraries.insert(key, Library { name, items });
            i = i + 1;
            assert(rest@ =~= all.skip(i as int));
        }
        assert(all.take(i as int) =~= all);
        let mut names: Vec<String> = Vec::new();
        let mut j: usize = 0;
        while j < libraries.len()
            invariant
                j <= libraries.pairs().len(),
                views(names@) == library_names(libraries.pairs()).take(j as int),
            decreases libraries.pairs().len() - j,
        {
            let lib = libraries.value_at(j);
            let name = lib.name.clone();
            assert(name@ == library_names(libraries.pairs())[j as int]);
            let ghost before = views(names@);
            let ghost nv = name@;
            names.push(name);
            assert(views(names@) =~= before.push(nv));
            assert(library_names(libraries.pairs()).take(j + 1) =~= library_names(libraries.pairs()).take(j as int).push(nv));
            j = j + 1;
        }
        assert(library_names(libraries.pairs()).take(j as int) =~= library_names(libraries.pairs()));
        let sorted = sort_strings(names);
        let list = join_strings(&sorted, ", ");
        DiscordFm { list, libraries }
    }

    /// The library stored under `query`.
    pub fn get(&self, query: &str) -> (r: Option<&Library<I>>)
        ensures
            match r {
                Some(l) => lookup(self.libraries.pairs(), query@) == Some(*l),
                None => lookup(self.libraries.pairs(), query@) is None,
            },
    {
        self.libraries.get(query)
    }
}

} // verus!
