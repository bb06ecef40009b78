//! The radio stations the bot can stream, found by name without regard to case.
use vstd::prelude::*;
use crate::table::{
    Table, distinct_keys, lemma_lookup_with_entry, lemma_with_entry_distinct, lookup, with_entry,
};
use crate::text::{lowercase, to_lowercase};

verus! {

pub struct Station {
    pub name: String,
    pub url: String,
}

impl Station {
    pub fn new(name: String, url: String) -> (r: Self)
        ensures
            r.name == name,
            r.url == url,
    {
        Self::_new(name, url)
    }

    pub fn _new(name: String, url: String) -> (r: Self)
        ensures
            r.name == name,
            r.url == url,
    {
        Station { name, url }
    }
}

/// The stations of a list of (name, URL) pairs, each under its lowercased
/// name; a later pair replaces an earlier one with the same lowercased name.
pub open spec fn station_table(entries: Seq<(String, String)>) -> Seq<(Seq<char>, Station)>
    decreases entries.len(),
{
    if entries.len() == 0 {
        Seq::empty()
    } else {
        let last = entries.last();
        with_entry(
            station_table(entries.drop_last()),
            lowercase(last.0@),
            Station { name: last.0, url: last.1 },
        )
    }
}

/// The station of the last pair whose lowercased name is `key`, if any.
pub open spec fn last_station_named(entries: Seq<(String, String)>, key: Seq<char>) -> Option<Station>
    decreases entries.len(),
{
    if entries.len() == 0 {
        None
    } else if lowercase(entries.last().0@) == key {
        Some(Station { name: entries.last().0, url: entries.last().1 })
    } else {
        last_station_named(entries.drop_last(), key)
    }
}

pub proof fn lemma_station_table_distinct(entries: Seq<(String, String)>)
    ensures
        distinct_keys(station_table(entries)),
    decreases entries.len(),
{
    if entries.len() > 0 {
        lemma_station_table_distinct(entries.drop_last());
        let last = entries.last();
        lemma_with_entry_distinct(
            station_table(entries.drop_last()),
            lowercase(last.0@),
            Station { name: last.0, url: last.1 },
        );
    }
}

/// Looking a station up by name finds the last station listed under a name
/// with the same lowercase form, and nothing when there is none.
pub proof fn lemma_radio_lookup(entries: Seq<(String, String)>, name: Seq<char>)
    ensures
        lookup(station_table(entries), lowercase(name)) == last_station_named(entries, lowercase(name)),
    decreases entries.len(),
{
    if entries.len() > 0 {
        lemma_radio_lookup(entries.drop_last(), name);
        lemma_station_table_distinct(entries.drop_last());
        let last = entries.last();
        lemma_lookup_with_entry(
            station_table(entries.drop_last()),
            lowercase(last.0@),
            Station { name: last.0, url: last.1 },
            lowercase(name),
        );
    }
}

pub struct RadioList {
    pub messages: Vec<String>,
    pub stations: Table<Station>,
}

impl RadioList {
    /// Builds the list from the (name, URL) pairs of the radio catalogue.
    pub fn from_stations(radio_stations: Vec<(String, String)>) -> (r: Self)
        ensures
            r.messages@ == Seq::<String>::empty(),
            r.stations.pairs() == station_table(radio_stations@),
    {
        let ghost all = radio_stations@;
        let total = radio_stations.len();
        assert(all.len() == total);
        let mut rest = radio_stations;
        let mut stations: Table<Station> = Table::new();
        let mut i: usize = 0;
        while rest.len() > 0
            invariant
                i + rest@.len() == all.len(),
                all.len() <= usize::MAX,
                rest@ == all.skip(i as int),
                stations.pairs() == station_table(all.take(i as int)),
            decreases rest.len(),
        {
            let (name, url) = rest.remove(0);
            assert(all.take(i + 1).drop_last() =~= all.take(i as int));
            assert(all.take(i + 1).last() == all[i as int]);
            let slug = to_lowercase(name.as_str());
            let station = Station::new(name, url);
            stations.insert(slug, station);
            i = i + 1;
            assert(rest@ =~= all.skip(i as int));
        }
        assert(all.take(i as int) =~= all);
        RadioList { messages: Vec::new(), stations }
    }

    /// The station whose lowercased name is the lowercased `name`.
    pub fn get(&self, name: &str) -> (r: Option<&Station>)
        ensures
            match r {
                Some(s) => lookup(self.stations.pairs(), lowercase(name@)) == Some(*s),
                None => lookup(self.stations.pairs(), lowercase(name@)) is None,
            },
    {
        self._get(name)
    }

    pub fn _get(&self, name: &str) -> (r: Option<&Station>)
        ensures
            match r {
                Some(s) => lookup(self.stations.pairs(), lowercase(name@)) == Some(*s),
                None => lookup(self.stations.pairs(), lowercase(name@)) is None,
            },
    {
        let key = to_lowercase(name);
        self.stations.get(key.as_str())
    }
}

} // verus!
