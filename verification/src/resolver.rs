//! Finds, among the formats on offer, the one that serves the caller best.
//!
//! The caller's list is the order of priority: the first name on it that has
//! any of its candidate formats on offer wins, whatever else is on offer too.

use vstd::prelude::*;
use crate::catalog::{catalog, lookup, names_of, str_eq, CatalogEntry, CatalogEntryView};
use crate::clipboardimage::ClipboardError;

verus! {

/// A format that the clipboard has on offer: its identifier and its registered name.
#[derive(Debug, PartialEq, Eq)]
pub struct AvailableFormat {
    pub id: u32,
    pub name: String,
}

/// A format on offer as a mathematical value.
pub struct AvailableFormatView {
    pub id: u32,
    pub name: Seq<char>,
}

impl View for AvailableFormat {
    type V = AvailableFormatView;

    open spec fn view(&self) -> AvailableFormatView {
        AvailableFormatView { id: self.id, name: self.name@ }
    }
}

/// The formats on offer as mathematical values, in the order of their enumeration.
pub open spec fn offers(available: Seq<AvailableFormat>) -> Seq<AvailableFormatView> {
    available.map_values(|format: AvailableFormat| format@)
}

/// The outcome of a search that met with success.
#[derive(Debug, PartialEq, Eq)]
pub struct ResolvedFormat {
    /// The identifier of the format that matched; never zero.
    pub format_id: u32,
    /// The candidate name that matched.
    pub format_name: String,
    /// The entry that the matched name is a candidate of.
    pub catalog_entry: CatalogEntry,
}

/// A resolved format as a mathematical value.
pub struct ResolvedFormatView {
    pub format_id: u32,
    pub format_name: Seq<char>,
    pub catalog_entry: CatalogEntryView,
}

impl View for ResolvedFormat {
    type V = ResolvedFormatView;

    open spec fn view(&self) -> ResolvedFormatView {
        ResolvedFormatView {
            format_id: self.format_id,
            format_name: self.format_name@,
            catalog_entry: self.catalog_entry@,
        }
    }
}

/// The place of the first format, from `from` on, whose name is one of `candidates`.
pub open spec fn first_offer_from(
    candidates: Seq<Seq<char>>,
    available: Seq<AvailableFormatView>,
    from: int,
) -> Option<int>
    decreases available.len() - from,
{
    if from < 0 || from >= available.len() {
        None
    } else if candidates.contains(available[from].name) {
        Some(from)
    } else {
        first_offer_from(candidates, available, from + 1)
    }
}

/// The identifier and the name of the first format on offer whose name is one
/// of `candidates`; zero and the empty name where there is none.
pub open spec fn id_for_format(candidates: Seq<Seq<char>>, available: Seq<AvailableFormatView>) -> (
    u32,
    Seq<char>,
) {
    match first_offer_from(candidates, available, 0) {
        Some(place) => (available[place].id, available[place].name),
        None => (0u32, Seq::<char>::empty()),
    }
}

/// The format that serves `candidates`: the first on offer whose name is one
/// of them, unless its identifier is zero, which no format has.
pub open spec fn offer(candidates: Seq<Seq<char>>, available: Seq<AvailableFormatView>) -> Option<
    AvailableFormatView,
> {
    let (id, name) = id_for_format(candidates, available);
    if id != 0 {
        Some(AvailableFormatView { id, name })
    } else {
        None
    }
}

/// The outcome of trying the names of `preferred` in turn, from place `from`
/// on: the place of the first name that is served and what serves it, nothing
/// when the list ends first, and an error when a name that the catalog does
/// not hold comes first.
pub open spec fn resolution_from(
    preferred: Seq<Seq<char>>,
    from: int,
    available: Seq<AvailableFormatView>,
) -> Result<Option<(int, ResolvedFormatView)>, ClipboardError>
    decreases preferred.len() - from,
{
    if from < 0 || from >= preferred.len() {
        Ok(None)
    } else {
        match catalog(preferred[from]) {
            None => Err(ClipboardError::UnknownFormatName),
            Some(entry) => match offer(entry.candidates, available) {
                Some(found) => Ok(
                    Some(
                        (
                            from,
                            ResolvedFormatView {
                                format_id: found.id,
                                format_name: found.name,
                                catalog_entry: entry,
                            },
                        ),
                    ),
                ),
                None => resolution_from(preferred, from + 1, available),
            },
        }
    }
}

/// The outcome of trying all the names of `preferred`.
pub open spec fn resolution(preferred: Seq<Seq<char>>, available: Seq<AvailableFormatView>) -> Result<
    Option<ResolvedFormatView>,
    ClipboardError,
> {
    match resolution_from(preferred, 0, available) {
        Ok(Some((_, format))) => Ok(Some(format)),
        Ok(None) => Ok(None),
        Err(error) => Err(error),
    }
}

/// Whether `name` is served: the catalog holds it and one of its candidates is on offer.
pub open spec fn served(name: Seq<char>, available: Seq<AvailableFormatView>) -> bool {
    catalog(name) matches Some(entry) && offer(entry.candidates, available).is_some()
}

/// Whether `name` is known to the catalog and none of its candidates is on offer.
pub open spec fn unserved(name: Seq<char>, available: Seq<AvailableFormatView>) -> bool {
    catalog(name) matches Some(entry) && offer(entry.candidates, available).is_none()
}

/// Whether `name` is known to the catalog and no format on offer bears the
/// name of one of its candidates.
pub open spec fn absent(name: Seq<char>, available: Seq<AvailableFormatView>) -> bool {
    catalog(name) matches Some(entry) && forall|j: int|
        0 <= j < available.len() ==> !entry.candidates.contains(#[trigger] available[j].name)
}

/// The first format found is the earliest one, in the order of enumeration,
/// whose name is a candidate: none before it is.
pub proof fn lemma_first_offer(
    candidates: Seq<Seq<char>>,
    available: Seq<AvailableFormatView>,
    from: int,
)
    requires
        0 <= from,
    ensures
        match first_offer_from(candidates, available, from) {
            Some(place) => {
                &&& from <= place < available.len()
                &&& candidates.contains(available[place].name)
                &&& forall|i: int| from <= i < place ==> !candidates.contains(#[trigger] available[i].name)
            },
            None => forall|i: int|
                from <= i < available.len() ==> !candidates.contains(#[trigger] available[i].name),
        },
    decreases available.len() - from,
{
    if from < available.len() && !candidates.contains(available[from].name) {
        lemma_first_offer(candidates, available, from + 1);
    }
}

/// Where no format on offer bears a candidate's name, nothing serves the candidates.
pub proof fn lemma_nothing_on_offer(candidates: Seq<Seq<char>>, available: Seq<AvailableFormatView>)
    requires
        forall|i: int| 0 <= i < available.len() ==> !candidates.contains(#[trigger] available[i].name),
    ensures
        offer(candidates, available).is_none(),
{
    lemma_first_offer(candidates, available, 0);
}

/// What serves a list of candidates is on offer under one of their names,
/// with an identifier that is not zero.
pub proof fn lemma_offer_is_candidate(candidates: Seq<Seq<char>>, available: Seq<AvailableFormatView>)
    ensures
        offer(candidates, available) matches Some(found) ==> {
            &&& found.id != 0
            &&& candidates.contains(found.name)
            &&& exists|i: int| 0 <= i < available.len() && available[i] == found
        },
{
    lemma_first_offer(candidates, available, 0);
    if let Some(place) = first_offer_from(candidates, available, 0) {
        assert(available[place] == AvailableFormatView {
            id: available[place].id,
            name: available[place].name,
        });
    }
}

/// The order of the caller's list decides. The name that wins is served, the
/// format found for it is one of its own candidates, and every name before it
/// is known and goes unserved. Nothing is found exactly when every name is
/// known and goes unserved, and the search fails exactly when an unknown name
/// comes before any that is served.
pub proof fn lemma_first_served_wins(
    preferred: Seq<Seq<char>>,
    from: int,
    available: Seq<AvailableFormatView>,
)
    requires
        0 <= from,
    ensures
        match resolution_from(preferred, from, available) {
            Ok(Some((place, format))) => {
                &&& from <= place < preferred.len()
                &&& catalog(preferred[place]) == Some(format.catalog_entry)
                &&& offer(format.catalog_entry.candidates, available) == Some(
                    AvailableFormatView { id: format.format_id, name: format.format_name },
                )
                &&& format.format_id != 0
                &&& format.catalog_entry.candidates.contains(format.format_name)
                &&& forall|i: int| from <= i < place ==> unserved(#[trigger] preferred[i], available)
            },
            Ok(None) => forall|i: int|
                from <= i < preferred.len() ==> unserved(#[trigger] preferred[i], available),
            Err(error) => {
                &&& error == ClipboardError::UnknownFormatName
                &&& exists|place: int|
                    {
                        &&& from <= place < preferred.len()
                        &&& catalog(#[trigger] preferred[place]).is_none()
                        &&& forall|i: int|
                            from <= i < place ==> unserved(#[trigger] preferred[i], available)
                    }
            },
        },
    decreases preferred.len() - from,
{
    if from < preferred.len() {
        match catalog(preferred[from]) {
            None => {
                assert(catalog(preferred[from]).is_none());
            },
            Some(entry) => {
                lemma_offer_is_candidate(entry.candidates, available);
                if offer(entry.candidates, available).is_none() {
                    lemma_first_served_wins(preferred, from + 1, available);
                    assert(unserved(preferred[from], available));
                    if let Err(_) = resolution_from(preferred, from + 1, available) {
                        let place = choose|place: int|
                            {
                                &&& from + 1 <= place < preferred.len()
                                &&& catalog(#[trigger] preferred[place]).is_none()
                                &&& forall|i: int|
                                    from + 1 <= i < place ==> unserved(
                                        #[trigger] preferred[i],
                                        available,
                                    )
                            };
                        assert(from <= place < preferred.len() && catalog(preferred[place]).is_none());
                    }
                }
            },
        }
    }
}

/// A served name is not passed over: where the name at `place` is served and
/// every name before it is known, the search stops at `place` or before it,
/// on a name that is served. So of two names that are both served, the one
/// that stands first in the caller's list wins, whichever of their formats
/// the enumeration gives first.
pub proof fn lemma_served_name_is_reached(
    preferred: Seq<Seq<char>>,
    from: int,
    place: int,
    available: Seq<AvailableFormatView>,
)
    requires
        0 <= from <= place < preferred.len(),
        served(preferred[place], available),
        forall|i: int| from <= i < place ==> catalog(#[trigger] preferred[i]).is_some(),
    ensures
        resolution_from(preferred, from, available) matches Ok(Some((winner, format))) && {
            &&& from <= winner <= place
            &&& served(preferred[winner], available)
            &&& catalog(preferred[winner]) == Some(format.catalog_entry)
            &&& format.catalog_entry.candidates.contains(format.format_name)
            &&& forall|i: int| from <= i < winner ==> unserved(#[trigger] preferred[i], available)
        },
{
    lemma_first_served_wins(preferred, from, available);
    match resolution_from(preferred, from, available) {
        Ok(Some((winner, format))) => {
            if winner > place {
                assert(unserved(preferred[place], available));
            }
        },
        Ok(None) => {
            assert(unserved(preferred[place], available));
        },
        Err(_) => {
            let unknown = choose|unknown: int|
                {
                    &&& from <= unknown < preferred.len()
                    &&& catalog(#[trigger] preferred[unknown]).is_none()
                    &&& forall|i: int|
                        from <= i < unknown ==> unserved(#[trigger] preferred[i], available)
                };
            if unknown > place {
                assert(unserved(preferred[place], available));
            }
        },
    }
}

/// A search that stops at some place stops there too when it starts there.
pub proof fn lemma_resolution_restarts(
    preferred: Seq<Seq<char>>,
    from: int,
    available: Seq<AvailableFormatView>,
)
    requires
        0 <= from,
    ensures
        resolution_from(preferred, from, available) matches Ok(Some((place, format)))
            ==> resolution_from(preferred, place, available) == resolution_from(
            preferred,
            from,
            available,
        ),
    decreases preferred.len() - from,
{
    if from < preferred.len() {
        if let Some(entry) = catalog(preferred[from]) {
            if offer(entry.candidates, available).is_none() {
                lemma_resolution_restarts(preferred, from + 1, available);
            }
        }
    }
}

/// Where every name asked for is known and none of the formats on offer bears
/// a candidate name of any of them, nothing is found.
pub proof fn lemma_exhausted(preferred: Seq<Seq<char>>, available: Seq<AvailableFormatView>)
    requires
        forall|i: int| 0 <= i < preferred.len() ==> absent(#[trigger] preferred[i], available),
    ensures
        resolution(preferred, available) == Ok::<Option<ResolvedFormatView>, ClipboardError>(None),
{
    lemma_exhausted_from(preferred, 0, available);
}

proof fn lemma_exhausted_from(
    preferred: Seq<Seq<char>>,
    from: int,
    available: Seq<AvailableFormatView>,
)
    requires
        0 <= from,
        forall|i: int| 0 <= i < preferred.len() ==> absent(#[trigger] preferred[i], available),
    ensures
        resolution_from(preferred, from, available) == Ok::<
            Option<(int, ResolvedFormatView)>,
            ClipboardError,
        >(None),
    decreases preferred.len() - from,
{
    if from < preferred.len() {
        let entry = catalog(preferred[from]).unwrap();
        lemma_nothing_on_offer(entry.candidates, available);
        lemma_exhausted_from(preferred, from + 1, available);
    }
}

/// Whether `name` is one of `candidates`.
pub fn is_candidate(candidates: &[&str], name: &str) -> (found: bool)
    ensures
        found == names_of(candidates@).contains(name@),
{
    let mut i: usize = 0;
    while i < candidates.len()
        invariant
            i <= candidates@.len(),
            forall|j: int| 0 <= j < i ==> names_of(candidates@)[j] != name@,
        decreases candidates@.len() - i,
    {
        if str_eq(candidates[i], name) {
            assert(names_of(candidates@)[i as int] == name@);
            return true;
        }
        i += 1;
    }
    false
}

/// Goes through the formats on offer in their order and gives the identifier
/// and the name of the first whose name is among `requested`; zero and the
/// empty name where there is none.
pub fn get_id_for_format(requested: &[&str], available: &[AvailableFormat]) -> (found: (u32, String))
    ensures
        (found.0, found.1@) == id_for_format(names_of(requested@), offers(available@)),
{
    let ghost candidates = names_of(requested@);
    let ghost on_offer = offers(available@);
    let mut i: usize = 0;
    while i < available.len()
        invariant
            i <= available@.len(),
            candidates == names_of(requested@),
            on_offer == offers(available@),
            first_offer_from(candidates, on_offer, 0) == first_offer_from(candidates, on_offer, i as int),
        decreases available@.len() - i,
    {
        assert(on_offer[i as int] == available@[i as int]@);
        if is_candidate(requested, available[i].name.as_str()) {
            return (available[i].id, available[i].name.clone());
        }
        i += 1;
    }
    (0, String::new())
}

/// Tries the names of `preferred` in turn, from place `from` on, against the
/// formats on offer, and stops at the first that is served.
pub fn resolve_from(preferred: &[&str], from: usize, available: &[AvailableFormat]) -> (found: Result<
    Option<(usize, ResolvedFormat)>,
    ClipboardError,
>)
    ensures
        match resolution_from(names_of(preferred@), from as int, offers(available@)) {
            Ok(Some((place, format))) => found matches Ok(Some(pair)) && pair.0 == place && pair.1@
                == format,
            Ok(None) => found matches Ok(None),
            Err(_) => found matches Err(ClipboardError::UnknownFormatName),
        },
{
    let ghost names = names_of(preferred@);
    let ghost on_offer = offers(available@);
    let mut i: usize = from;
    while i < preferred.len()
        invariant
            from <= i,
            names == names_of(preferred@),
            on_offer == offers(available@),
            resolution_from(names, from as int, on_offer) == resolution_from(names, i as int, on_offer),
        decreases preferred@.len() - i,
    {
        assert(names[i as int] == preferred@[i as int]@);
        match lookup(preferred[i]) {
            None => {
                return Err(ClipboardError::UnknownFormatName);
            },
            Some(entry) => {
                let (id, name) = get_id_for_format(entry.candidate_format_names.as_slice(), available);
                if id != 0 {
                    let format = ResolvedFormat { format_id: id, format_name: name, catalog_entry: entry };
                    return Ok(Some((i, format)));
                }
            },
        }
        i += 1;
    }
    Ok(None)
}

/// Finds what serves the caller best: the first name of `preferred` that has
/// one of its candidate formats on offer, and the first such format in the
/// order of enumeration. Fails when a name that the catalog does not hold is
/// reached before any name is served.
pub fn resolve(preferred: &[&str], available: &[AvailableFormat]) -> (found: Result<
    Option<ResolvedFormat>,
    ClipboardError,
>)
    ensures
        match resolution(names_of(preferred@), offers(available@)) {
            Ok(Some(format)) => found matches Ok(Some(resolved)) && resolved@ == format,
            Ok(None) => found matches Ok(None),
            Err(_) => found matches Err(ClipboardError::UnknownFormatName),
        },
{
    match resolve_from(preferred, 0, available) {
        Ok(Some((_, format))) => Ok(Some(format)),
        Ok(None) => Ok(None),
        Err(error) => Err(error),
    }
}

} // verus!
