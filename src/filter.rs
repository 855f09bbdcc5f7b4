use vstd::prelude::*;

use crate::cli_data::{asset_type_name, AssetTypes, ListAnyOfArgs, SearchAssetsArgs};
use crate::ids::{uuid_text, Guid};
use crate::text::{
    debug_quoted, debug_text, join_with, joined, replace_all, replace_char, split_first,
    split_once_char, trim_text, trimmed, views,
};

verus! {

/// The character that separates the segments of a location path in the index.
pub const PATH_DELIMITER: char = '~';

/// The word that joins the predicates of a filter.
pub const FILTER_JOIN: &'static str = " AND ";

/// A compiled search: pagination, the fields to return, the free-text term and
/// the conjunctive filter with the predicates it joins.
#[derive(Debug, Clone)]
pub struct SearchQuery {
    pub limit: u32,
    pub offset: u32,
    pub attributes_to_retrieve: Vec<String>,
    pub q: Option<String>,
    pub filters: Vec<String>,
    pub filter: String,
}

/// The fields every search asks for, in the order the response is mapped.
pub open spec fn retrieved_attributes() -> Seq<Seq<char>> {
    seq![
        "id"@,
        "displayName"@,
        "assetLifecycleState"@,
        "assetType"@,
        "manufacturerId"@,
        "manufacturerName"@,
        "monitoringState"@,
        "parentId"@,
        "parentDisplayName"@,
        "productId"@,
        "productName"@,
        "status"@,
        "delimitedPath"@,
        "assetProperty_serialNumber"@,
    ]
}

/// `text` in single quotes after `head`.
pub open spec fn quoted_after(head: Seq<char>, text: Seq<char>) -> Seq<char> {
    head + "'"@ + text + "'"@
}

pub open spec fn asset_type_pred(t: AssetTypes) -> Seq<char> {
    quoted_after("assetType = "@, asset_type_name(t))
}

/// The predicate that keeps assets whose location path starts with `prefix`.
pub open spec fn path_pred(prefix: Seq<char>) -> Seq<char> {
    quoted_after("delimitedPath STARTS WITH "@, prefix)
}

/// A slash-separated location path in the form the index stores.
pub open spec fn indexed_path(p: Seq<char>) -> Seq<char> {
    replace_all(p, '/', PATH_DELIMITER)
}

/// An indexed location path in slash-separated form.
pub open spec fn display_path(p: Seq<char>) -> Seq<char> {
    replace_all(p, PATH_DELIMITER, '/')
}

/// The scope of a search that names no location: everything under the root.
pub open spec fn root_pred(root: Seq<char>) -> Seq<char> {
    path_pred(root + seq![PATH_DELIMITER])
}

pub open spec fn id_pred(id: Guid) -> Seq<char> {
    quoted_after("id = "@, uuid_text(id.value))
}

pub open spec fn manufacturer_pred(m: Seq<char>) -> Seq<char> {
    quoted_after("manufacturerName = "@, m)
}

pub open spec fn product_pred(p: Seq<char>) -> Seq<char> {
    quoted_after("productName CONTAINS "@, p)
}

/// The predicate of one `key=value` token under an attribute prefix, if the
/// token holds a `=`.
pub open spec fn key_value_pred(token: Seq<char>, prefix: Seq<char>) -> Option<Seq<char>> {
    match split_first(token, '=') {
        Some((k, v)) => Some(quoted_after(prefix + trimmed(k) + " "@ + " = "@, trimmed(v))),
        None => None,
    }
}

/// The predicates of the well-formed tokens, in order; the others are dropped.
pub open spec fn key_value_preds(tokens: Seq<Seq<char>>, prefix: Seq<char>) -> Seq<Seq<char>>
    decreases tokens.len(),
{
    if tokens.len() == 0 {
        Seq::empty()
    } else {
        let rest = key_value_preds(tokens.drop_last(), prefix);
        match key_value_pred(tokens.last(), prefix) {
            Some(p) => rest.push(p),
            None => rest,
        }
    }
}

/// `{:?}` of a list of strings: each quoted, between brackets.
pub open spec fn debug_list(values: Seq<Seq<char>>) -> Seq<char> {
    "["@ + joined(values.map_values(|v: Seq<char>| debug_quoted(v)), ", "@) + "]"@
}

/// The predicate of assets that have property `key` with one of `values`.
pub open spec fn any_of_pred(key: Seq<char>, values: Seq<Seq<char>>) -> Seq<char> {
    "assetProperty_"@ + key + " EXISTS AND assetProperty_"@ + key + " IN "@ + debug_list(values)
}

pub open spec fn opt_pred<T>(o: Option<T>, f: spec_fn(T) -> Seq<char>) -> Seq<Seq<char>> {
    match o {
        Some(x) => seq![f(x)],
        None => Seq::empty(),
    }
}

pub open spec fn opt_text(o: Option<String>) -> Option<Seq<char>> {
    match o {
        Some(s) => Some(s@),
        None => None,
    }
}

pub open spec fn opt_tokens(o: Option<Vec<String>>) -> Seq<Seq<char>> {
    match o {
        Some(v) => views(v@),
        None => Seq::empty(),
    }
}

/// The predicates after the type and location ones, shared by both searches.
pub open spec fn tail_preds(
    custom: Seq<Seq<char>>,
    id: Option<Guid>,
    manufacturer: Option<Seq<char>>,
    product: Option<Seq<char>>,
) -> Seq<Seq<char>> {
    key_value_preds(custom, "customProperty_"@) + opt_pred(id, |g: Guid| id_pred(g)) + opt_pred(
        manufacturer,
        |m: Seq<char>| manufacturer_pred(m),
    ) + opt_pred(product, |p: Seq<char>| product_pred(p))
}

/// The predicates of a search, in order; `root` scopes a search that names no
/// location.
pub open spec fn search_preds(o: SearchAssetsArgs, root: Seq<char>) -> Seq<Seq<char>> {
    let location = match o.location_path {
        Some(p) => path_pred(indexed_path(p@)),
        None => root_pred(root),
    };
    opt_pred(o.asset_type, |t: AssetTypes| asset_type_pred(t)) + seq![location]
        + key_value_preds(opt_tokens(o.properties), "assetProperty_"@) + tail_preds(
        opt_tokens(o.custom_properties),
        o.id,
        opt_text(o.manufacturer),
        opt_text(o.product),
    )
}

/// The predicates of a listing by property values, in order.
pub open spec fn any_of_preds(o: ListAnyOfArgs) -> Seq<Seq<char>> {
    seq![any_of_pred(o.property_key@, views(o.property_value@))] + opt_pred(
        o.asset_type,
        |t: AssetTypes| asset_type_pred(t),
    ) + opt_pred(opt_text(o.location_path), |p: Seq<char>| path_pred(indexed_path(p)))
        + tail_preds(
        opt_tokens(o.custom_properties),
        o.id,
        opt_text(o.manufacturer),
        opt_text(o.product),
    )
}

/// The text of `head` followed by `text` in single quotes.
fn quote_after(head: &str, text: &str) -> (r: String)
    ensures
        r@ == quoted_after(head@, text@),
{
    let mut r = String::from_str(head);
    r.append("'");
    r.append(text);
    r.append("'");
    r
}

fn push_text(out: &mut Vec<String>, s: String)
    ensures
        views(final(out)@) == views(old(out)@).push(s@),
{
    out.push(s);
    proof {
        assert(views(final(out)@) =~= views(old(out)@).push(s@));
    }
}

/// The predicate of a location-path prefix given with slashes.
pub fn location_predicate(path: &str) -> (r: String)
    ensures
        r@ == path_pred(indexed_path(path@)),
{
    let prepared = replace_char(path, '/', PATH_DELIMITER);
    quote_after("delimitedPath STARTS WITH ", prepared.as_str())
}

/// Appends the predicate of each well-formed `key=value` token; a token
/// without `=` contributes none.
fn push_key_value_preds(out: &mut Vec<String>, tokens: &Vec<String>, prefix: &str)
    ensures
        views(final(out)@) == views(old(out)@) + key_value_preds(views(tokens@), prefix@),
{
    let mut i: usize = 0;
    while i < tokens.len()
        invariant
            i <= tokens.len(),
            views(out@) == views(old(out)@) + key_value_preds(
                views(tokens@).subrange(0, i as int),
                prefix@,
            ),
        decreases tokens.len() - i,
    {
        let token = tokens[i].as_str();
        proof {
            let t = views(tokens@).subrange(0, i + 1);
            assert(t.drop_last() =~= views(tokens@).subrange(0, i as int));
            assert(t.last() == token@);
        }
        match split_once_char(token, '=') {
            Some((k, v)) => {
                let key = trim_text(k.as_str());
                let value = trim_text(v.as_str());
                let mut attr = String::from_str(prefix);
                attr.append(key.as_str());
                attr.append(" ");
                attr.append(" = ");
                let pred = quote_after(attr.as_str(), value.as_str());
                push_text(out, pred);
                proof {
                    assert(views(out@) =~= views(old(out)@) + key_value_preds(
                        views(tokens@).subrange(0, i + 1),
                        prefix@,
                    ));
                }
            },
            None => {},
        }
        i += 1;
    }
    proof {
        assert(views(tokens@).subrange(0, tokens.len() as int) =~= views(tokens@));
    }
}

/// Appends the custom-property, id, manufacturer and product predicates.
fn push_tail_preds(
    out: &mut Vec<String>,
    custom: &Option<Vec<String>>,
    id: &Option<Guid>,
    manufacturer: &Option<String>,
    product: &Option<String>,
)
    ensures
        views(final(out)@) == views(old(out)@) + tail_preds(
            opt_tokens(*custom),
            *id,
            opt_text(*manufacturer),
            opt_text(*product),
        ),
{
    let ghost start = views(out@);
    match custom {
        Some(tokens) => push_key_value_preds(out, tokens, "customProperty_"),
        None => {
            assert(key_value_preds(Seq::<Seq<char>>::empty(), "customProperty_"@) =~= Seq::empty());
            assert(views(out@) =~= views(out@) + Seq::<Seq<char>>::empty());
        },
    }
    let ghost after_custom = views(out@);
    match id {
        Some(g) => {
            let text = g.to_text();
            push_text(out, quote_after("id = ", text.as_str()));
        },
        None => {},
    }
    assert(views(out@) =~= after_custom + opt_pred(*id, |g: Guid| id_pred(g)));
    let ghost after_id = views(out@);
    match manufacturer {
        Some(m) => push_text(out, quote_after("manufacturerName = ", m.as_str())),
        None => {},
    }
    assert(views(out@) =~= after_id + opt_pred(
        opt_text(*manufacturer),
        |m: Seq<char>| manufacturer_pred(m),
    ));
    let ghost after_manufacturer = views(out@);
    match product {
        Some(p) => push_text(out, quote_after("productName CONTAINS ", p.as_str())),
        None => {},
    }
    assert(views(out@) =~= after_manufacturer + opt_pred(
        opt_text(*product),
        |p: Seq<char>| product_pred(p),
    ));
    assert(views(out@) =~= start + tail_preds(
        opt_tokens(*custom),
        *id,
        opt_text(*manufacturer),
        opt_text(*product),
    ));
}

/// The fields every search asks for.
fn attribute_list() -> (r: Vec<String>)
    ensures
        views(r@) == retrieved_attributes(),
{
    let names: [&str; 14] = [
        "id",
        "displayName",
        "assetLifecycleState",
        "assetType",
        "manufacturerId",
        "manufacturerName",
        "monitoringState",
        "parentId",
        "parentDisplayName",
        "productId",
        "productName",
        "status",
        "delimitedPath",
        "assetProperty_serialNumber",
    ];
    let mut r: Vec<String> = Vec::new();
    let mut i: usize = 0;
    while i < 14
        invariant
            i <= 14,
            names@.len() == 14,
            forall|j: int| 0 <= j < 14 ==> names@[j]@ == retrieved_attributes()[j],
            views(r@) == retrieved_attributes().subrange(0, i as int),
        decreases 14 - i,
    {
        push_text(&mut r, String::from_str(names[i]));
        proof {
            assert(retrieved_attributes().subrange(0, i + 1) =~= retrieved_attributes().subrange(
                0,
                i as int,
            ).push(names@[i as int]@));
        }
        i += 1;
    }
    proof {
        assert(retrieved_attributes().subrange(0, 14) =~= retrieved_attributes());
    }
    r
}

/// Compiles search criteria into a query. `all_location_name` is the display
/// name of the root location, which scopes a search that names no location.
pub fn compose_search_query(options: SearchAssetsArgs, all_location_name: &str) -> (r:
    SearchQuery)
    ensures
        r.limit == options.limit,
        r.offset == options.skip,
        views(r.attributes_to_retrieve@) == retrieved_attributes(),
        r.q == options.search_pattern,
        views(r.filters@) == search_preds(options, all_location_name@),
        r.filter@ == joined(search_preds(options, all_location_name@), FILTER_JOIN@),
{
    let mut filters: Vec<String> = Vec::new();
    match &options.asset_type {
        Some(t) => push_text(&mut filters, quote_after("assetType = ", t.name())),
        None => {},
    }
    let ghost after_type = views(filters@);
    let location = match &options.location_path {
        Some(p) => location_predicate(p.as_str()),
        None => {
            let mut root = String::from_str(all_location_name);
            push_char_delim(&mut root);
            quote_after("delimitedPath STARTS WITH ", root.as_str())
        },
    };
    push_text(&mut filters, location);
    let ghost after_location = views(filters@);
    match &options.properties {
        Some(tokens) => push_key_value_preds(&mut filters, tokens, "assetProperty_"),
        None => {},
    }
    assert(views(filters@) =~= after_location + key_value_preds(
        opt_tokens(options.properties),
        "assetProperty_"@,
    ));
    let ghost after_props = views(filters@);
    push_tail_preds(
        &mut filters,
        &options.custom_properties,
        &options.id,
        &options.manufacturer,
        &options.product,
    );
    assert(views(filters@) =~= search_preds(options, all_location_name@));
    let filter = join_with(&filters, FILTER_JOIN);
    SearchQuery {
        limit: options.limit,
        offset: options.skip,
        attributes_to_retrieve: attribute_list(),
        q: options.search_pattern,
        filters,
        filter,
    }
}

fn push_char_delim(s: &mut String)
    ensures
        final(s)@ == old(s)@ + seq![PATH_DELIMITER],
{
    crate::text::push_char(s, PATH_DELIMITER);
    assert(final(s)@ =~= old(s)@ + seq![PATH_DELIMITER]);
}

/// `{:?}` of a list of strings.
fn debug_list_text(values: &Vec<String>) -> (r: String)
    ensures
        r@ == debug_list(views(values@)),
{
    let mut quoted: Vec<String> = Vec::new();
    let mut i: usize = 0;
    while i < values.len()
        invariant
            i <= values.len(),
            views(quoted@) == views(values@).subrange(0, i as int).map_values(
                |v: Seq<char>| debug_quoted(v),
            ),
        decreases values.len() - i,
    {
        push_text(&mut quoted, debug_text(values[i].as_str()));
        proof {
            assert(views(values@).subrange(0, i + 1).map_values(|v: Seq<char>| debug_quoted(v))
                =~= views(values@).subrange(0, i as int).map_values(
                |v: Seq<char>| debug_quoted(v),
            ).push(debug_quoted(values@[i as int]@)));
        }
        i += 1;
    }
    proof {
        assert(views(values@).subrange(0, values.len() as int) =~= views(values@));
    }
    let inner = join_with(&quoted, ", ");
    let mut r = String::from_str("[");
    r.append(inner.as_str());
    r.append("]");
    r
}

/// Compiles a listing by the values of one property into a query.
pub fn compose_any_of_query(options: ListAnyOfArgs) -> (r: SearchQuery)
    ensures
        r.limit == options.limit,
        r.offset == options.skip,
        views(r.attributes_to_retrieve@) == retrieved_attributes(),
        r.q is None,
        views(r.filters@) == any_of_preds(options),
        r.filter@ == joined(any_of_preds(options), FILTER_JOIN@),
{
    let mut filters: Vec<String> = Vec::new();
    let key = options.property_key.as_str();
    let mut pred = String::from_str("assetProperty_");
    pred.append(key);
    pred.append(" EXISTS AND assetProperty_");
    pred.append(key);
    pred.append(" IN ");
    let list = debug_list_text(&options.property_value);
    pred.append(list.as_str());
    push_text(&mut filters, pred);
    let ghost after_any = views(filters@);
    match &options.asset_type {
        Some(t) => push_text(&mut filters, quote_after("assetType = ", t.name())),
        None => {},
    }
    assert(views(filters@) =~= after_any + opt_pred(
        options.asset_type,
        |t: AssetTypes| asset_type_pred(t),
    ));
    let ghost after_type = views(filters@);
    match &options.location_path {
        Some(p) => push_text(&mut filters, location_predicate(p.as_str())),
        None => {},
    }
    assert(views(filters@) =~= after_type + opt_pred(
        opt_text(options.location_path),
        |p: Seq<char>| path_pred(indexed_path(p)),
    ));
    push_tail_preds(
        &mut filters,
        &options.custom_properties,
        &options.id,
        &options.manufacturer,
        &options.product,
    );
    assert(views(filters@) =~= any_of_preds(options));
    let filter = join_with(&filters, FILTER_JOIN);
    SearchQuery {
        limit: options.limit,
        offset: options.skip,
        attributes_to_retrieve: attribute_list(),
        q: None,
        filters,
        filter,
    }
}

/// A search that sets none of the optional criteria is scoped to the root
/// location and nothing else: its one predicate is the root scope, and its
/// filter is that predicate alone, with no join word before, after or doubled.
pub proof fn lemma_unrestricted_search(o: SearchAssetsArgs, root: Seq<char>)
    requires
        o.asset_type is None,
        o.location_path is None,
        o.properties is None,
        o.custom_properties is None,
        o.id is None,
        o.manufacturer is None,
        o.product is None,
    ensures
        search_preds(o, root) == seq![root_pred(root)],
        joined(search_preds(o, root), FILTER_JOIN@) == root_pred(root),
{
    assert(key_value_preds(Seq::<Seq<char>>::empty(), "assetProperty_"@) =~= Seq::empty());
    assert(key_value_preds(Seq::<Seq<char>>::empty(), "customProperty_"@) =~= Seq::empty());
    assert(search_preds(o, root) =~= seq![root_pred(root)]);
}

/// A location path written with slashes, turned into the indexed form and
/// shown again with slashes, is the path it was, provided it holds no
/// delimiter character of its own.
pub proof fn lemma_location_path_round_trip(p: Seq<char>)
    requires
        !p.contains(PATH_DELIMITER),
    ensures
        display_path(indexed_path(p)) == p,
{
    assert forall|i: int| 0 <= i < p.len() implies display_path(indexed_path(p))[i] == p[i] by {
        assert(p[i] != PATH_DELIMITER);
    }
    assert(display_path(indexed_path(p)) =~= p);
}

/// Holds of a `key=value` token, one that contains `=`.
pub open spec fn well_formed_token() -> spec_fn(Seq<char>) -> bool {
    |t: Seq<char>| split_first(t, '=') is Some
}

/// One predicate per well-formed token: a property or custom-property list
/// yields exactly as many predicates as it has tokens containing `=`.
pub proof fn lemma_one_predicate_per_token(tokens: Seq<Seq<char>>, prefix: Seq<char>)
    ensures
        key_value_preds(tokens, prefix).len() == tokens.filter(well_formed_token()).len(),
    decreases tokens.len(),
{
    if tokens.len() > 0 {
        lemma_one_predicate_per_token(tokens.drop_last(), prefix);
        assert(tokens.drop_last().push(tokens.last()) =~= tokens);
        tokens.drop_last().lemma_filter_push(tokens.last(), well_formed_token());
    } else {
        assert(tokens.filter(well_formed_token()) =~= Seq::<Seq<char>>::empty());
    }
}

} // verus!
