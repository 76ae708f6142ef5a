//! The Locations API: geocoding by point and by free-text query.

use crate::params::{put, put_opt, Entries, Params};
use crate::text::{fixed5, is_fixed5_text, lemma_fixed5_shape, push_fixed5};
use vstd::prelude::*;

verus! {

/// What kind of place a result is.
#[derive(Debug, Clone, Copy, PartialEq, Eq, Structural)]
pub enum EntityType {
    Address,
    Neighborhood,
    PopulatedPlace,
    Postcode1,
    AdminDivision1,
    AdminDivision2,
    CountryRegion,
    // Missing in the service's documentation, but met in its answers.
    Postcode2,
    Postcode3,
    RoadBlock,
    RoadIntersection,
    HigherEducationFacility,
    Stadium,
    TouristStructure,
    Airport,
    Park,
    Lake,
    River,
    Island,
}

/// The symbolic name of an entity type, as the service spells it.
pub open spec fn entity_name(e: EntityType) -> Seq<char> {
    match e {
        EntityType::Address => "Address"@,
        EntityType::Neighborhood => "Neighborhood"@,
        EntityType::PopulatedPlace => "PopulatedPlace"@,
        EntityType::Postcode1 => "Postcode1"@,
        EntityType::AdminDivision1 => "AdminDivision1"@,
        EntityType::AdminDivision2 => "AdminDivision2"@,
        EntityType::CountryRegion => "CountryRegion"@,
        EntityType::Postcode2 => "Postcode2"@,
        EntityType::Postcode3 => "Postcode3"@,
        EntityType::RoadBlock => "RoadBlock"@,
        EntityType::RoadIntersection => "RoadIntersection"@,
        EntityType::HigherEducationFacility => "HigherEducationFacility"@,
        EntityType::Stadium => "Stadium"@,
        EntityType::TouristStructure => "TouristStructure"@,
        EntityType::Airport => "Airport"@,
        EntityType::Park => "Park"@,
        EntityType::Lake => "Lake"@,
        EntityType::River => "River"@,
        EntityType::Island => "Island"@,
    }
}

impl EntityType {
    /// The symbolic name of the entity type.
    pub fn name(&self) -> (r: &'static str)
        ensures
            r@ == entity_name(*self),
    {
        match self {
            EntityType::Address => "Address",
            EntityType::Neighborhood => "Neighborhood",
            EntityType::PopulatedPlace => "PopulatedPlace",
            EntityType::Postcode1 => "Postcode1",
            EntityType::AdminDivision1 => "AdminDivision1",
            EntityType::AdminDivision2 => "AdminDivision2",
            EntityType::CountryRegion => "CountryRegion",
            EntityType::Postcode2 => "Postcode2",
            EntityType::Postcode3 => "Postcode3",
            EntityType::RoadBlock => "RoadBlock",
            EntityType::RoadIntersection => "RoadIntersection",
            EntityType::HigherEducationFacility => "HigherEducationFacility",
            EntityType::Stadium => "Stadium",
            EntityType::TouristStructure => "TouristStructure",
            EntityType::Airport => "Airport",
            EntityType::Park => "Park",
            EntityType::Lake => "Lake",
            EntityType::River => "River",
            EntityType::Island => "Island",
        }
    }
}

/// The structured address of a result; the service leaves out what it does
/// not know.
#[derive(Debug, Clone, Default)]
pub struct Address {
    pub address_line: Option<String>,
    pub neighborhood: Option<String>,
    pub locality: Option<String>,
    pub postal_code: Option<String>,
    pub admin_district1: Option<String>,
    pub admin_district2: Option<String>,
    pub country: Option<String>,
    pub country_iso: Option<String>,
    pub landmark: Option<String>,
    pub formatted: Option<String>,
}

/// How sure the service is that a result matches the request.
#[derive(Debug, Clone, Copy, PartialEq, Eq, Structural)]
pub enum Confidence {
    High,
    Medium,
    Low,
}

/// How a result was matched.
#[derive(Debug, Clone, Copy, PartialEq, Eq, Structural)]
pub enum MatchCode {
    Good,
    Ambiguous,
    UpHierarchy,
}

/// The texts joined by commas.
pub open spec fn join(s: Seq<Seq<char>>) -> Seq<char>
    decreases s.len(),
{
    if s.len() == 0 {
        Seq::empty()
    } else if s.len() == 1 {
        s[0]
    } else {
        join(s.drop_last()) + ","@ + s.last()
    }
}

pub open spec fn texts(v: Seq<String>) -> Seq<Seq<char>> {
    v.map_values(|x: String| x@)
}

pub open spec fn entity_names(v: Seq<EntityType>) -> Seq<Seq<char>> {
    v.map_values(|e: EntityType| entity_name(e))
}

/// The strings of `v` joined by commas.
pub fn join_strings(v: &Vec<String>) -> (r: String)
    ensures
        r@ == join(texts(v@)),
{
    let mut s = String::new();
    let mut i: usize = 0;
    while i < v.len()
        invariant
            i <= v@.len(),
            s@ == join(texts(v@).take(i as int)),
        decreases v@.len() - i,
    {
        assert(texts(v@).take(i + 1).drop_last() =~= texts(v@).take(i as int));
        if i > 0 {
            s.append(",");
        }
        s.append(v[i].as_str());
        i = i + 1;
        assert(s@ =~= join(texts(v@).take(i as int)));
    }
    assert(texts(v@).take(v@.len() as int) =~= texts(v@));
    s
}

/// The names of the entity types joined by commas.
pub fn join_entity_names(v: &Vec<EntityType>) -> (r: String)
    ensures
        r@ == join(entity_names(v@)),
{
    let mut s = String::new();
    let mut i: usize = 0;
    while i < v.len()
        invariant
            i <= v@.len(),
            s@ == join(entity_names(v@).take(i as int)),
        decreases v@.len() - i,
    {
        assert(entity_names(v@).take(i + 1).drop_last() =~= entity_names(v@).take(i as int));
        if i > 0 {
            s.append(",");
        }
        s.append(v[i].name());
        i = i + 1;
        assert(s@ =~= join(entity_names(v@).take(i as int)));
    }
    assert(entity_names(v@).take(v@.len() as int) =~= entity_names(v@));
    s
}

/// A point whose latitude and longitude are counted in hundred-thousandths of
/// a degree, as `lat,lng`.
pub open spec fn latlng_text(lat: int, lng: int) -> Seq<char> {
    fixed5(lat) + ","@ + fixed5(lng)
}

/// For every latitude and longitude, the point is the two coordinates, each
/// with exactly five decimal places and a sign only where negative, joined by
/// one comma.
pub proof fn lemma_latlng_fixed5(lat: i64, lng: i64)
    ensures
        exists|a: Seq<char>, b: Seq<char>|
            latlng_text(lat as int, lng as int) == a + ","@ + b && is_fixed5_text(a, lat < 0)
                && is_fixed5_text(b, lng < 0),
{
    lemma_fixed5_shape(lat as int);
    lemma_fixed5_shape(lng as int);
    let a = fixed5(lat as int);
    let b = fixed5(lng as int);
    assert(latlng_text(lat as int, lng as int) == a + ","@ + b);
}

/// A reverse-geocoding request: the point to look up, and what to include.
#[derive(Debug, Clone)]
pub struct FindPoint {
    /// The point as `lat,lng`.
    pub point: String,
    /// Restricts the results to these entity types, where there are any.
    pub include_entity_types: Vec<EntityType>,
    /// Asks for the neighborhood in the address.
    pub include_neighborhood: bool,
    /// Asks for the ISO country code in the address.
    pub include_ciso2: bool,
}

impl Default for FindPoint {
    fn default() -> (r: FindPoint)
        ensures
            r.point@ == Seq::<char>::empty(),
            r.include_entity_types@ == Seq::<EntityType>::empty(),
            !r.include_neighborhood,
            !r.include_ciso2,
    {
        FindPoint {
            point: String::new(),
            include_entity_types: Vec::new(),
            include_neighborhood: false,
            include_ciso2: false,
        }
    }
}

impl FindPoint {
    /// The request for a point whose latitude and longitude are counted in
    /// hundred-thousandths of a degree; each is written with five decimal
    /// places and the two are joined by a comma.
    pub fn from_latlng(lat: i64, lng: i64) -> (r: FindPoint)
        ensures
            r.point@ == latlng_text(lat as int, lng as int),
            r.include_entity_types@.len() == 0,
            !r.include_neighborhood,
            !r.include_ciso2,
    {
        let mut point = String::new();
        push_fixed5(&mut point, lat);
        point.append(",");
        push_fixed5(&mut point, lng);
        assert(point@ =~= latlng_text(lat as int, lng as int));
        FindPoint {
            point,
            include_entity_types: Vec::new(),
            include_neighborhood: false,
            include_ciso2: false,
        }
    }

    /// The request for a point already written as `lat,lng`.
    pub fn from_str(latlng: &str) -> (r: FindPoint)
        ensures
            r.point@ == latlng@,
            r.include_entity_types@.len() == 0,
            !r.include_neighborhood,
            !r.include_ciso2,
    {
        FindPoint {
            point: latlng.to_owned(),
            include_entity_types: Vec::new(),
            include_neighborhood: false,
            include_ciso2: false,
        }
    }
}

/// Hints that either operation may carry. Numbers are held in the decimal
/// text that is sent for them.
#[derive(Debug, Clone)]
pub struct ContextParams {
    /// The culture code of the answer, such as `en-US`.
    pub culture: Option<String>,
    /// The user's map view: south latitude, west longitude, north latitude,
    /// east longitude.
    pub user_map_view: Option<Vec<String>>,
    /// The user's latitude and longitude.
    pub user_location: Option<(String, String)>,
    /// The user's IP address.
    pub user_ip: Option<String>,
    /// The user's region, as an ISO 3166-2 code.
    pub user_region: Option<String>,
}

impl Default for ContextParams {
    fn default() -> (r: ContextParams)
        ensures
            r.culture is None,
            r.user_map_view is None,
            r.user_location is None,
            r.user_ip is None,
            r.user_region is None,
    {
        ContextParams {
            culture: None,
            user_map_view: None,
            user_location: None,
            user_ip: None,
            user_region: None,
        }
    }
}

pub open spec fn opt_text(o: Option<String>) -> Option<Seq<char>> {
    match o {
        Some(s) => Some(s@),
        None => None,
    }
}

/// The value sent for the user's map view.
pub open spec fn map_view_text(o: Option<Vec<String>>) -> Option<Seq<char>> {
    match o {
        Some(v) => Some(join(texts(v@))),
        None => None,
    }
}

/// The value sent for the user's location: `lat,lng`.
pub open spec fn location_text(o: Option<(String, String)>) -> Option<Seq<char>> {
    match o {
        Some(ll) => Some(ll.0@ + ","@ + ll.1@),
        None => None,
    }
}

/// The entries after adding each hint that is given: `c`, `umv`, `ul`,
/// `uip` and `ur`.
pub open spec fn with_context(s: Entries, ctx: ContextParams) -> Entries {
    put_opt(
        put_opt(
            put_opt(
                put_opt(put_opt(s, "c"@, opt_text(ctx.culture)), "umv"@, map_view_text(ctx.user_map_view)),
                "ul"@,
                location_text(ctx.user_location),
            ),
            "uip"@,
            opt_text(ctx.user_ip),
        ),
        "ur"@,
        opt_text(ctx.user_region),
    )
}

pub open spec fn with_opt_context(s: Entries, opts: Option<ContextParams>) -> Entries {
    match opts {
        Some(ctx) => with_context(s, ctx),
        None => s,
    }
}

/// The parameters of a reverse-geocoding request, before any hint.
pub open spec fn point_entries(find: FindPoint) -> Entries {
    let s0 = Seq::<(Seq<char>, Seq<char>)>::empty();
    let s1 = if find.include_entity_types@.len() > 0 {
        put(s0, "include_entity_types"@, join(entity_names(find.include_entity_types@)))
    } else {
        s0
    };
    let s2 = if find.include_neighborhood {
        put(s1, "inclnb"@, "1"@)
    } else {
        s1
    };
    if find.include_ciso2 {
        put(s2, "incl"@, "ciso2"@)
    } else {
        s2
    }
}

impl ContextParams {
    /// Adds each hint that is given to `params`.
    pub fn add_to(&self, params: &mut Params)
        requires
            old(params).wf(),
        ensures
            final(params).wf(),
            final(params)@ == with_context(old(params)@, *self),
    {
        params.insert_opt("c", &self.culture);
        match &self.user_map_view {
            Some(umv) => {
                let v = join_strings(umv);
                params.insert("umv", v.as_str());
            },
            None => {},
        }
        match &self.user_location {
            Some(ul) => {
                let mut v = String::new();
                v.append(ul.0.as_str());
                v.append(",");
                v.append(ul.1.as_str());
                assert(v@ =~= ul.0@ + ","@ + ul.1@);
                params.insert("ul", v.as_str());
            },
            None => {},
        }
        params.insert_opt("uip", &self.user_ip);
        params.insert_opt("ur", &self.user_region);
    }
}

/// One call of the Locations API: the path under the service root and its
/// query parameters.
pub struct LocationRequest {
    pub path: String,
    pub params: Params,
}

impl LocationRequest {
    /// The request that finds the locations at `find.point`.
    pub fn by_point(find: &FindPoint, opts: &Option<ContextParams>) -> (r: LocationRequest)
        ensures
            r.path@ == "/Locations/"@ + find.point@,
            r.params.wf(),
            r.params@ == with_opt_context(point_entries(*find), *opts),
    {
        let mut path = String::new();
        path.append("/Locations/");
        path.append(find.point.as_str());
        assert(path@ =~= "/Locations/"@ + find.point@);
        let mut params = Params::new();
        if find.include_entity_types.len() > 0 {
            let types = join_entity_names(&find.include_entity_types);
            params.insert("include_entity_types", types.as_str());
        }
        if find.include_neighborhood {
            params.insert("inclnb", "1");
        }
        if find.include_ciso2 {
            params.insert("incl", "ciso2");
        }
        match opts {
            Some(ctx) => ctx.add_to(&mut params),
            None => {},
        }
        LocationRequest { path, params }
    }

    /// The request that finds the locations matching the free-text `query`.
    pub fn by_query(query: &str, opts: &Option<ContextParams>) -> (r: LocationRequest)
        ensures
            r.path@ == "/Locations"@,
            r.params.wf(),
            r.params@ == with_opt_context(seq![("q"@, query@)], *opts),
    {
        let path = "/Locations".to_owned();
        let mut params = Params::new();
        params.insert("q", query);
        assert(params@ =~= seq![("q"@, query@)]);
        match opts {
            Some(ctx) => ctx.add_to(&mut params),
            None => {},
        }
        LocationRequest { path, params }
    }
}

} // verus!
