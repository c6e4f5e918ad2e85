//! Station records: the nullable form in which a directory mirror delivers
//! them and the fully populated form the rest of the library works with.

use vstd::prelude::*;

verus! {

/// A playable stream and its metadata. Every field is present; a field the
/// directory did not supply is the empty string.
#[derive(Debug)]
pub struct Station {
    pub stationuuid: String,
    pub name: String,
    pub url: String,
    pub url_resolved: String,
    pub homepage: String,
    pub favicon: String,
    pub tags: String,
    pub country: String,
    pub language: String,
}

/// Mathematical value of a [`Station`]: the text of each field.
pub struct StationView {
    pub stationuuid: Seq<char>,
    pub name: Seq<char>,
    pub url: Seq<char>,
    pub url_resolved: Seq<char>,
    pub homepage: Seq<char>,
    pub favicon: Seq<char>,
    pub tags: Seq<char>,
    pub country: Seq<char>,
    pub language: Seq<char>,
}

impl View for Station {
    type V = StationView;

    open spec fn view(&self) -> StationView {
        StationView {
            stationuuid: self.stationuuid@,
            name: self.name@,
            url: self.url@,
            url_resolved: self.url_resolved@,
            homepage: self.homepage@,
            favicon: self.favicon@,
            tags: self.tags@,
            country: self.country@,
            language: self.language@,
        }
    }
}

impl DeepView for Station {
    type V = StationView;

    open spec fn deep_view(&self) -> StationView {
        self@
    }
}

/// A station record as it arrives on the wire: each field may be missing or
/// null, independently of the others.
#[derive(Debug)]
pub struct ApiStation {
    pub stationuuid: Option<String>,
    pub name: Option<String>,
    pub url: Option<String>,
    pub url_resolved: Option<String>,
    pub homepage: Option<String>,
    pub favicon: Option<String>,
    pub tags: Option<String>,
    pub country: Option<String>,
    pub language: Option<String>,
}

/// Mathematical value of an [`ApiStation`].
pub struct ApiStationView {
    pub stationuuid: Option<Seq<char>>,
    pub name: Option<Seq<char>>,
    pub url: Option<Seq<char>>,
    pub url_resolved: Option<Seq<char>>,
    pub homepage: Option<Seq<char>>,
    pub favicon: Option<Seq<char>>,
    pub tags: Option<Seq<char>>,
    pub country: Option<Seq<char>>,
    pub language: Option<Seq<char>>,
}

impl View for ApiStation {
    type V = ApiStationView;

    open spec fn view(&self) -> ApiStationView {
        ApiStationView {
            stationuuid: self.stationuuid.deep_view(),
            name: self.name.deep_view(),
            url: self.url.deep_view(),
            url_resolved: self.url_resolved.deep_view(),
            homepage: self.homepage.deep_view(),
            favicon: self.favicon.deep_view(),
            tags: self.tags.deep_view(),
            country: self.country.deep_view(),
            language: self.language.deep_view(),
        }
    }
}

impl DeepView for ApiStation {
    type V = ApiStationView;

    open spec fn deep_view(&self) -> ApiStationView {
        self@
    }
}

/// Text of an optional wire field: the field's characters when present, the
/// empty sequence when the directory omitted or nulled it.
pub open spec fn text_or_empty(field: Option<Seq<char>>) -> Seq<char> {
    match field {
        Some(text) => text,
        None => Seq::empty(),
    }
}

/// The station a wire record stands for: present fields verbatim, absent
/// fields empty.
pub open spec fn normalized(raw: ApiStationView) -> StationView {
    StationView {
        stationuuid: text_or_empty(raw.stationuuid),
        name: text_or_empty(raw.name),
        url: text_or_empty(raw.url),
        url_resolved: text_or_empty(raw.url_resolved),
        homepage: text_or_empty(raw.homepage),
        favicon: text_or_empty(raw.favicon),
        tags: text_or_empty(raw.tags),
        country: text_or_empty(raw.country),
        language: text_or_empty(raw.language),
    }
}

/// A record list normalized entry by entry, order kept.
pub open spec fn normalized_all(raw: Seq<ApiStationView>) -> Seq<StationView> {
    raw.map_values(|record: ApiStationView| normalized(record))
}

/// Moves the text out of an optional wire field, substituting the empty
/// string for an absent one.
pub fn field_or_empty(field: Option<String>) -> (text: String)
    ensures
        text@ == text_or_empty(field.deep_view()),
{
    match field {
        Some(text) => text,
        None => String::new(),
    }
}

impl From<ApiStation> for Station {
    /// Normalizes one wire record.
    fn from(api: ApiStation) -> (station: Station)
        ensures
            station@ == normalized(api@),
    {
        Station {
            stationuuid: field_or_empty(api.stationuuid),
            name: field_or_empty(api.name),
            url: field_or_empty(api.url),
            url_resolved: field_or_empty(api.url_resolved),
            homepage: field_or_empty(api.homepage),
            favicon: field_or_empty(api.favicon),
            tags: field_or_empty(api.tags),
            country: field_or_empty(api.country),
            language: field_or_empty(api.language),
        }
    }
}

impl vstd::std_specs::convert::FromSpecImpl<ApiStation> for Station {
    /// Two strings with the same text need not be the same value, so the
    /// conversion is specified on views, by the `ensures` of `from`.
    open spec fn obeys_from_spec() -> bool {
        false
    }

    open spec fn from_spec(api: ApiStation) -> Station {
        arbitrary()
    }
}

/// Normalizes a whole record list in the order the mirror sent it.
pub fn normalize_all(records: Vec<ApiStation>) -> (stations: Vec<Station>)
    ensures
        stations.deep_view() == normalized_all(records.deep_view()),
{
    let ghost raw = records@;
    let mut stations: Vec<Station> = Vec::new();
    for record in it: records
        invariant
            it.seq() == raw,
            stations@.len() == it.index(),
            forall|i: int|
                0 <= i < it.index() ==> (#[trigger] stations@[i])@ == normalized(raw[i]@),
    {
        stations.push(Station::from(record));
    }
    stations
}

impl Clone for Station {
    fn clone(&self) -> (copy: Station)
        ensures
            copy == *self,
    {
        Station {
            stationuuid: self.stationuuid.clone(),
            name: self.name.clone(),
            url: self.url.clone(),
            url_resolved: self.url_resolved.clone(),
            homepage: self.homepage.clone(),
            favicon: self.favicon.clone(),
            tags: self.tags.clone(),
            country: self.country.clone(),
            language: self.language.clone(),
        }
    }
}

impl PartialEq for Station {
    fn eq(&self, other: &Station) -> (same: bool) {
        self.stationuuid == other.stationuuid && self.name == other.name && self.url == other.url
            && self.url_resolved == other.url_resolved && self.homepage == other.homepage
            && self.favicon == other.favicon && self.tags == other.tags && self.country
            == other.country && self.language == other.language
    }
}

impl Eq for Station {

}

impl vstd::std_specs::cmp::PartialEqSpecImpl for Station {
    open spec fn obeys_eq_spec() -> bool {
        true
    }

    open spec fn eq_spec(&self, other: &Station) -> bool {
        self@ == other@
    }
}

impl Default for Station {
    /// The station whose every field is empty.
    fn default() -> (station: Station)
        ensures
            station@ == normalized(ApiStation::none_view()),
    {
        Station {
            stationuuid: String::new(),
            name: String::new(),
            url: String::new(),
            url_resolved: String::new(),
            homepage: String::new(),
            favicon: String::new(),
            tags: String::new(),
            country: String::new(),
            language: String::new(),
        }
    }
}

impl ApiStation {
    /// Value of a record in which no field is present.
    pub open spec fn none_view() -> ApiStationView {
        ApiStationView {
            stationuuid: None,
            name: None,
            url: None,
            url_resolved: None,
            homepage: None,
            favicon: None,
            tags: None,
            country: None,
            language: None,
        }
    }
}

impl Default for ApiStation {
    /// The record in which every field is missing.
    fn default() -> (record: ApiStation)
        ensures
            record@ == ApiStation::none_view(),
    {
        ApiStation {
            stationuuid: None,
            name: None,
            url: None,
            url_resolved: None,
            homepage: None,
            favicon: None,
            tags: None,
            country: None,
            language: None,
        }
    }
}

} // verus!
