use vstd::prelude::*;

use crate::app_errors::AppError;
use crate::filter::{display_path, indexed_path, lemma_location_path_round_trip, PATH_DELIMITER};
use crate::ids::{uuid_parsed, Guid};
use crate::text::{replace_char, same_text};

verus! {

/// An asset as a search returns it. Each text field holds the JSON rendering of
/// the value the service sent; `property` is filled afterwards, on request.
#[derive(Debug, Clone)]
pub struct AssetDto {
    pub id: Guid,
    pub name: String,
    pub asset_lifecycle_state: String,
    pub asset_type_id: String,
    pub manufacturer_id: String,
    pub manufacturer_name: String,
    pub monitoring_state: String,
    pub parent_id: String,
    pub parent_name: String,
    pub product_id: String,
    pub product_name: String,
    pub status: String,
    pub path: String,
    pub serial_number: String,
    pub property: Option<String>,
}

/// One result document; `None` where a field is absent. `id` and
/// `delimited_path` hold the text of their JSON strings, without quotes; every
/// other field holds the JSON rendering of its value. `serial_numbers` is the
/// JSON text of the serial-number array, `None` where the document has no such
/// array.
#[derive(Debug, Clone)]
pub struct SearchHit {
    pub id: Option<String>,
    pub display_name: Option<String>,
    pub asset_lifecycle_state: Option<String>,
    pub asset_type: Option<String>,
    pub manufacturer_id: Option<String>,
    pub manufacturer_name: Option<String>,
    pub monitoring_state: Option<String>,
    pub parent_id: Option<String>,
    pub parent_display_name: Option<String>,
    pub product_id: Option<String>,
    pub product_name: Option<String>,
    pub status: Option<String>,
    pub delimited_path: Option<String>,
    pub serial_numbers: Option<String>,
}

/// The `hits` field of a search response.
#[derive(Debug, Clone)]
pub enum SearchHits {
    Absent,
    NotAList,
    Items(Vec<SearchHit>),
}

/// The envelope of a search response.
#[derive(Debug, Clone)]
pub struct SearchResponse {
    pub estimated_total_hits: u64,
    pub limit: u64,
    pub hits: SearchHits,
}

/// The name of the first required field that `h` lacks, in response order.
pub open spec fn first_missing(h: SearchHit) -> Option<Seq<char>> {
    if h.id is None {
        Some("id"@)
    } else if h.display_name is None {
        Some("displayName"@)
    } else if h.asset_lifecycle_state is None {
        Some("assetLifecycleState"@)
    } else if h.asset_type is None {
        Some("assetType"@)
    } else if h.manufacturer_id is None {
        Some("manufacturerId"@)
    } else if h.manufacturer_name is None {
        Some("manufacturerName"@)
    } else if h.monitoring_state is None {
        Some("monitoringState"@)
    } else if h.parent_id is None {
        Some("parentId"@)
    } else if h.parent_display_name is None {
        Some("parentDisplayName"@)
    } else if h.product_id is None {
        Some("productId"@)
    } else if h.product_name is None {
        Some("productName"@)
    } else if h.status is None {
        Some("status"@)
    } else if h.delimited_path is None {
        Some("delimitedPath"@)
    } else {
        None
    }
}

/// The text of a present field.
pub open spec fn field(o: Option<String>) -> Seq<char> {
    o.unwrap()@
}

/// `a` is the asset that a complete hit `h` describes.
pub open spec fn asset_of_hit(a: AssetDto, h: SearchHit) -> bool {
    &&& uuid_parsed(field(h.id)) == Some(a.id.value)
    &&& a.name@ == field(h.display_name)
    &&& a.asset_lifecycle_state@ == field(h.asset_lifecycle_state)
    &&& a.asset_type_id@ == field(h.asset_type)
    &&& a.manufacturer_id@ == field(h.manufacturer_id)
    &&& a.manufacturer_name@ == field(h.manufacturer_name)
    &&& a.monitoring_state@ == field(h.monitoring_state)
    &&& a.parent_id@ == field(h.parent_id)
    &&& a.parent_name@ == field(h.parent_display_name)
    &&& a.product_id@ == field(h.product_id)
    &&& a.product_name@ == field(h.product_name)
    &&& a.status@ == field(h.status)
    &&& a.path@ == display_path(field(h.delimited_path))
    &&& a.serial_number@ == (match h.serial_numbers {
        Some(s) => s@,
        None => "[]"@,
    })
    &&& a.property is None
}

/// Why a result document cannot be mapped.
pub ghost enum HitFault {
    MissingField(Seq<char>),
    InvalidIdentifier(Seq<char>),
}

/// The outcome of mapping one hit: why it fails, or `None`.
pub open spec fn hit_error(h: SearchHit) -> Option<HitFault> {
    match first_missing(h) {
        Some(name) => Some(HitFault::MissingField(name)),
        None => if uuid_parsed(field(h.id)) is None {
            Some(HitFault::InvalidIdentifier(field(h.id)))
        } else {
            None
        },
    }
}

/// `r` reports the fault `e`.
pub open spec fn error_matches(r: AppError, e: HitFault) -> bool {
    match (r, e) {
        (AppError::MissingField(a), HitFault::MissingField(b)) => a@ == b,
        (AppError::InvalidIdentifier(a), HitFault::InvalidIdentifier(b)) => a@ == b,
        _ => false,
    }
}

fn take_field(o: &Option<String>, name: &str) -> (r: Result<String, AppError>)
    ensures
        o is Some ==> (r matches Ok(s) && s@ == o.unwrap()@),
        o is None ==> (r matches Err(AppError::MissingField(n)) && n@ == name@),
{
    match o {
        Some(s) => Ok(s.clone()),
        None => Err(AppError::MissingField(String::from_str(name))),
    }
}

/// The asset that one result document describes. A required field that is
/// absent, or an identifier that does not parse, fails the mapping.
pub fn map_search_hit(h: &SearchHit) -> (r: Result<AssetDto, AppError>)
    ensures
        hit_error(*h) is None ==> (r matches Ok(a) && asset_of_hit(a, *h)),
        hit_error(*h) matches Some(e) ==> (r matches Err(x) && error_matches(x, e)),
{
    let id_text = take_field(&h.id, "id")?;
    let name = take_field(&h.display_name, "displayName")?;
    let asset_lifecycle_state = take_field(&h.asset_lifecycle_state, "assetLifecycleState")?;
    let asset_type_id = take_field(&h.asset_type, "assetType")?;
    let manufacturer_id = take_field(&h.manufacturer_id, "manufacturerId")?;
    let manufacturer_name = take_field(&h.manufacturer_name, "manufacturerName")?;
    let monitoring_state = take_field(&h.monitoring_state, "monitoringState")?;
    let parent_id = take_field(&h.parent_id, "parentId")?;
    let parent_name = take_field(&h.parent_display_name, "parentDisplayName")?;
    let product_id = take_field(&h.product_id, "productId")?;
    let product_name = take_field(&h.product_name, "productName")?;
    let status = take_field(&h.status, "status")?;
    let raw_path = take_field(&h.delimited_path, "delimitedPath")?;
    let id = match Guid::parse(id_text.as_str()) {
        Some(g) => g,
        None => {
            return Err(AppError::InvalidIdentifier(id_text));
        },
    };
    let path = replace_char(raw_path.as_str(), PATH_DELIMITER, '/');
    let serial_number = match &h.serial_numbers {
        Some(s) => s.clone(),
        None => String::from_str("[]"),
    };
    Ok(
        AssetDto {
            id,
            name,
            asset_lifecycle_state,
            asset_type_id,
            manufacturer_id,
            manufacturer_name,
            monitoring_state,
            parent_id,
            parent_name,
            product_id,
            product_name,
            status,
            path,
            serial_number,
            property: None,
        },
    )
}

/// Whether some hit of `hits` fails to map.
pub open spec fn some_hit_fails(hits: Seq<SearchHit>) -> bool {
    exists|i: int| 0 <= i < hits.len() && hit_error(#[trigger] hits[i]) is Some
}

/// The assets of a search response. A zero total gives an empty list whatever
/// `hits` holds; otherwise each hit is mapped in order, and the first that
/// fails to map fails the whole call.
pub fn collect_search_results(resp: &SearchResponse) -> (r: Result<Vec<AssetDto>, AppError>)
    ensures
        resp.estimated_total_hits == 0 ==> (r matches Ok(v) && v@.len() == 0),
        resp.estimated_total_hits != 0 ==> match resp.hits {
            SearchHits::Absent => (r matches Ok(v) && v@.len() == 0),
            SearchHits::NotAList => (r matches Err(AppError::MissingField(n)) && n@ == "hits"@),
            SearchHits::Items(hits) => {
                &&& r is Ok <==> !some_hit_fails(hits@)
                &&& r matches Ok(v) ==> v@.len() == hits@.len() && forall|i: int|
                    0 <= i < v@.len() ==> asset_of_hit(#[trigger] v@[i], hits@[i])
                &&& r matches Err(x) ==> exists|i: int|
                    0 <= i < hits@.len() && (forall|j: int|
                        0 <= j < i ==> hit_error(#[trigger] hits@[j]) is None) && (hit_error(
                        #[trigger] hits@[i],
                    ) matches Some(e) && error_matches(x, e))
            },
        },
{
    let mut assets: Vec<AssetDto> = Vec::new();
    if resp.estimated_total_hits == 0 {
        return Ok(assets);
    }
    match &resp.hits {
        SearchHits::Absent => Ok(assets),
        SearchHits::NotAList => Err(AppError::MissingField(String::from_str("hits"))),
        SearchHits::Items(hits) => {
            let mut i: usize = 0;
            while i < hits.len()
                invariant
                    resp.estimated_total_hits != 0,
                    (resp.hits matches SearchHits::Items(h) && h == *hits),
                    i <= hits.len(),
                    assets@.len() == i,
                    forall|j: int| 0 <= j < i ==> hit_error(#[trigger] hits@[j]) is None,
                    forall|j: int| 0 <= j < i ==> asset_of_hit(#[trigger] assets@[j], hits@[j]),
                decreases hits.len() - i,
            {
                match map_search_hit(&hits[i]) {
                    Ok(a) => {
                        assets.push(a);
                    },
                    Err(e) => {
                        assert(hit_error(hits@[i as int]) is Some);
                        return Err(e);
                    },
                }
                i += 1;
            }
            Ok(assets)
        },
    }
}

/// One property of an asset: its type and the rendering of its value.
#[derive(Debug, Clone)]
pub struct PropertyValue {
    pub property_type: String,
    pub value: String,
}

/// The values of the properties of type `t`, in order.
pub open spec fn values_of_type(props: Seq<PropertyValue>, t: Seq<char>) -> Seq<Seq<char>>
    decreases props.len(),
{
    if props.len() == 0 {
        Seq::empty()
    } else {
        let rest = values_of_type(props.drop_last(), t);
        if props.last().property_type@ == t {
            rest.push(props.last().value@)
        } else {
            rest
        }
    }
}

/// Each value followed by one space.
pub open spec fn spaced(values: Seq<Seq<char>>) -> Seq<char>
    decreases values.len(),
{
    if values.len() == 0 {
        Seq::empty()
    } else {
        spaced(values.drop_last()) + values.last() + " "@
    }
}

/// The text a search shows for property `property_type` of one asset: the
/// values of every property of that type, each followed by a space.
pub fn enrichment_text(props: &Vec<PropertyValue>, property_type: &str) -> (r: String)
    ensures
        r@ == spaced(values_of_type(props@, property_type@)),
{
    let mut r = String::new();
    let mut i: usize = 0;
    while i < props.len()
        invariant
            i <= props.len(),
            r@ == spaced(values_of_type(props@.subrange(0, i as int), property_type@)),
        decreases props.len() - i,
    {
        let p = &props[i];
        proof {
            assert(props@.subrange(0, i + 1).drop_last() =~= props@.subrange(0, i as int));
        }
        if same_text(p.property_type.as_str(), property_type) {
            r.append(p.value.as_str());
            r.append(" ");
            proof {
                let before = values_of_type(props@.subrange(0, i as int), property_type@);
                assert(before.push(p.value@).drop_last() =~= before);
            }
        }
        i += 1;
    }
    proof {
        assert(props@.subrange(0, props.len() as int) =~= props@);
    }
    r
}

/// A location path survives a search: when a filter was compiled from the
/// slash-separated path `p` and a result document carries that path in the
/// indexed form, the asset mapped from it shows `p` again, provided `p` holds
/// no delimiter character of its own.
pub proof fn lemma_mapped_path_round_trip(a: AssetDto, h: SearchHit, p: Seq<char>)
    requires
        !p.contains(PATH_DELIMITER),
        h.delimited_path matches Some(t) && t@ == indexed_path(p),
        asset_of_hit(a, h),
    ensures
        a.path@ == p,
{
    lemma_location_path_round_trip(p);
}

} // verus!
