//! Catalog metadata: the descriptive fields the third-party movie catalog
//! returns for one identifier, and the tolerant parser for its JSON
//! payload.
//!
//! The catalog's payload is a flat JSON object consumed field by field. Its
//! field-name casing is not trusted: each field is accepted under its
//! lowercase name or its capitalized alias. A payload that is not a JSON
//! object, or is missing any of the six fields as a string, fails with
//! `ServiceError::Upstream`.

use vstd::prelude::*;

use crate::errors::ServiceError;
use crate::text::str_eq;

verus! {

/// Mathematical model of the catalog metadata.
pub ghost struct MetadataModel {
    pub title: Seq<char>,
    pub year: Seq<char>,
    pub director: Seq<char>,
    pub genre: Seq<char>,
    pub plot: Seq<char>,
    pub poster: Seq<char>,
}

/// Descriptive metadata for one title, fetched fresh from the catalog per
/// request; never persisted.
pub struct CatalogMetadata {
    pub title: String,
    pub year: String,
    pub director: String,
    pub genre: String,
    pub plot: String,
    pub poster: String,
}

impl View for CatalogMetadata {
    type V = MetadataModel;

    open spec fn view(&self) -> MetadataModel {
        MetadataModel {
            title: self.title@,
            year: self.year@,
            director: self.director@,
            genre: self.genre@,
            plot: self.plot@,
            poster: self.poster@,
        }
    }
}

/// What deserializing a payload as a JSON object yields: `None` when the
/// text is not a JSON object, otherwise the object's entries in the order
/// the deserializer hands them out, each value kept when it is a string and
/// left empty otherwise.
pub uninterp spec fn json_object_entries(s: Seq<char>) -> Option<
    Seq<(Seq<char>, Option<Seq<char>>)>,
>;

/// The views of parsed object entries.
pub open spec fn entry_views(v: Seq<(String, Option<String>)>) -> Seq<
    (Seq<char>, Option<Seq<char>>),
> {
    v.map_values(
        |e: (String, Option<String>)|
            (
                e.0@,
                match e.1 {
                    Some(x) => Some(x@),
                    None => None,
                },
            ),
    )
}

/// Relies on serde_json::from_str, deserializing into a map from field
/// name to value: whether the text is a JSON object, and which entries the
/// object holds, are functions of the text alone (the map is ordered, so
/// the order the entries come out in is too). Each entry's value is kept
/// when it is a JSON string; an entry of any other kind is kept without a
/// value.
#[verifier::external_body]
fn parse_object(s: &str) -> (r: Option<Vec<(String, Option<String>)>>)
    ensures
        match r {
            Some(v) => json_object_entries(s@) == Some(entry_views(v@)),
            None => json_object_entries(s@) is None,
        },
{
    match serde_json::from_str::<serde_json::Map<String, serde_json::Value>>(s) {
        Ok(m) => Some(
            m.into_iter().map(
                |entry: (String, serde_json::Value)|
                    match entry.1 {
                        serde_json::Value::String(x) => (entry.0, Some(x)),
                        _ => (entry.0, None),
                    },
            ).collect(),
        ),
        Err(_) => None,
    }
}

/// The first entry whose key is `k1` or `k2` and which holds a string
/// value, if any.
pub open spec fn field_lookup(
    es: Seq<(Seq<char>, Option<Seq<char>>)>,
    k1: Seq<char>,
    k2: Seq<char>,
) -> Option<Seq<char>>
    decreases es.len(),
{
    if es.len() == 0 {
        None
    } else if (es[0].0 == k1 || es[0].0 == k2) && es[0].1 is Some {
        es[0].1
    } else {
        field_lookup(es.drop_first(), k1, k2)
    }
}

/// Find the field named `lower` or `upper` among the parsed entries.
fn lookup_field(entries: &Vec<(String, Option<String>)>, lower: &str, upper: &str) -> (r: Option<
    String,
>)
    ensures
        match r {
            Some(x) => field_lookup(entry_views(entries@), lower@, upper@) == Some(x@),
            None => field_lookup(entry_views(entries@), lower@, upper@) is None,
        },
{
    let ghost es = entry_views(entries@);
    proof {
        assert(es.skip(0) =~= es);
    }
    let n = entries.len();
    let mut i: usize = 0;
    while i < n
        invariant
            n == entries@.len(),
            es == entry_views(entries@),
            es.len() == n,
            i <= n,
            field_lookup(es, lower@, upper@) == field_lookup(
                es.skip(i as int),
                lower@,
                upper@,
            ),
        decreases n - i,
    {
        proof {
            assert(es.skip(i as int).drop_first() =~= es.skip(i + 1));
            assert(es.skip(i as int)[0] == es[i as int]);
        }
        let hit = (str_eq(entries[i].0.as_str(), lower) || str_eq(entries[i].0.as_str(), upper))
            && entries[i].1.is_some();
        if hit {
            match &entries[i].1 {
                Some(x) => {
                    return Some(x.clone());
                },
                None => {
                    proof {
                        assert(false);
                    }
                },
            }
        }
        i = i + 1;
    }
    proof {
        assert(es.skip(n as int) =~= Seq::<(Seq<char>, Option<Seq<char>>)>::empty());
    }
    None
}

/// What the six metadata fields of a parsed object are, each accepted
/// under its lowercase name or its capitalized alias; `None` when any is
/// missing or not a string.
pub open spec fn metadata_lookup(es: Seq<(Seq<char>, Option<Seq<char>>)>) -> Option<
    MetadataModel,
> {
    if field_lookup(es, "title"@, "Title"@) is Some && field_lookup(es, "year"@, "Year"@) is Some
        && field_lookup(es, "director"@, "Director"@) is Some && field_lookup(
        es,
        "genre"@,
        "Genre"@,
    ) is Some && field_lookup(es, "plot"@, "Plot"@) is Some && field_lookup(
        es,
        "poster"@,
        "Poster"@,
    ) is Some {
        Some(
            MetadataModel {
                title: field_lookup(es, "title"@, "Title"@)->Some_0,
                year: field_lookup(es, "year"@, "Year"@)->Some_0,
                director: field_lookup(es, "director"@, "Director"@)->Some_0,
                genre: field_lookup(es, "genre"@, "Genre"@)->Some_0,
                plot: field_lookup(es, "plot"@, "Plot"@)->Some_0,
                poster: field_lookup(es, "poster"@, "Poster"@)->Some_0,
            },
        )
    } else {
        None
    }
}

/// The metadata a full payload carries: its top-level object's six fields,
/// or nothing when the payload is not an object or a field is missing.
pub open spec fn metadata_of_payload(s: Seq<char>) -> Option<MetadataModel> {
    match json_object_entries(s) {
        Some(es) => metadata_lookup(es),
        None => None,
    }
}

/// Parse one catalog payload.
///
/// Tolerates both field-name conventions the catalog has used (lowercase
/// and capitalized); fails with `ServiceError::Upstream` when the payload
/// is not a JSON object or any of the six fields is missing or not a
/// string.
pub fn parse_catalog_metadata(body: &str) -> (r: Result<CatalogMetadata, ServiceError>)
    ensures
        match r {
            Ok(m) => metadata_of_payload(body@) == Some(m@),
            Err(e) => e == ServiceError::Upstream && metadata_of_payload(body@) is None,
        },
{
    let entries = match parse_object(body) {
        Some(v) => v,
        None => {
            return Err(ServiceError::Upstream);
        },
    };
    let title = lookup_field(&entries, "title", "Title");
    let year = lookup_field(&entries, "year", "Year");
    let director = lookup_field(&entries, "director", "Director");
    let genre = lookup_field(&entries, "genre", "Genre");
    let plot = lookup_field(&entries, "plot", "Plot");
    let poster = lookup_field(&entries, "poster", "Poster");
    match (title, year, director, genre, plot, poster) {
        (Some(title), Some(year), Some(director), Some(genre), Some(plot), Some(poster)) => Ok(
            CatalogMetadata { title, year, director, genre, plot, poster },
        ),
        _ => Err(ServiceError::Upstream),
    }
}

} // verus!
