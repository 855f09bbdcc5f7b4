use vstd::prelude::*;

use crate::app_errors::AppError;
use crate::ids::Guid;
use crate::text::{remove_all, remove_char, same_text, trim_text, trimmed};

verus! {

/// What a property update reads of one property of an asset.
#[derive(Debug, Clone)]
pub struct PropertyEntry {
    pub id: Option<Guid>,
    pub property_type: String,
}

/// Where the new value of a property is written.
#[derive(Debug, Clone, Copy, PartialEq, Eq, Structural)]
pub enum PropertyTarget {
    /// The property exists: its value is replaced.
    Existing(Guid),
    /// The property has no id yet: it is created on the asset.
    New,
}

/// The write that sets a property: `index` is the entry whose other fields
/// the payload keeps.
#[derive(Debug, Clone, Copy, PartialEq, Eq, Structural)]
pub struct PropertyWrite {
    pub index: usize,
    pub target: PropertyTarget,
}

/// The positions of the entries of type `t`, in order.
pub open spec fn positions_of_type(entries: Seq<PropertyEntry>, t: Seq<char>) -> Seq<int>
    decreases entries.len(),
{
    if entries.len() == 0 {
        Seq::empty()
    } else {
        let rest = positions_of_type(entries.drop_last(), t);
        if entries.last().property_type@ == t {
            rest.push(entries.len() - 1)
        } else {
            rest
        }
    }
}

/// Decides how to set property `property_type` of an asset whose properties
/// are `entries`: with none of that type nothing is written; with one, it is
/// replaced when it has an id and created otherwise; with more than one the
/// update is refused.
pub fn plan_property_update(entries: &Vec<PropertyEntry>, property_type: &str) -> (r: Result<
    Option<PropertyWrite>,
    AppError,
>)
    ensures
        ({
            let pos = positions_of_type(entries@, property_type@);
            &&& pos.len() > 1 ==> (r matches Err(AppError::MultipleValuesDetectedForProperty))
            &&& pos.len() == 0 ==> (r matches Ok(None))
            &&& pos.len() == 1 ==> (r matches Ok(Some(w)) && w.index == pos[0] && w.target == (
            match entries@[pos[0]].id {
                Some(g) => PropertyTarget::Existing(g),
                None => PropertyTarget::New,
            }))
        }),
{
    let mut found: Option<usize> = None;
    let mut i: usize = 0;
    while i < entries.len()
        invariant
            i <= entries.len(),
            positions_of_type(entries@.subrange(0, i as int), property_type@).len() <= 1,
            match found {
                None => positions_of_type(entries@.subrange(0, i as int), property_type@).len()
                    == 0,
                Some(j) => j < i && positions_of_type(entries@.subrange(0, i as int), property_type@)
                    == seq![j as int],
            },
        decreases entries.len() - i,
    {
        proof {
            assert(entries@.subrange(0, i + 1).drop_last() =~= entries@.subrange(0, i as int));
        }
        if same_text(entries[i].property_type.as_str(), property_type) {
            if found.is_some() {
                proof {
                    let all = entries@;
                    assert(positions_of_type(all.subrange(0, i + 1), property_type@).len() == 2);
                    lemma_positions_grow(all, property_type@, i + 1);
                }
                return Err(AppError::MultipleValuesDetectedForProperty);
            }
            found = Some(i);
            proof {
                assert(positions_of_type(entries@.subrange(0, i + 1), property_type@) =~= seq![
                    i as int,
                ]);
            }
        }
        i += 1;
    }
    proof {
        assert(entries@.subrange(0, entries@.len() as int) =~= entries@);
    }
    match found {
        None => Ok(None),
        Some(j) => {
            let target = match entries[j].id {
                Some(g) => PropertyTarget::Existing(g),
                None => PropertyTarget::New,
            };
            Ok(Some(PropertyWrite { index: j, target }))
        },
    }
}

/// The matches in a prefix never outnumber those in the whole.
proof fn lemma_positions_grow(entries: Seq<PropertyEntry>, t: Seq<char>, i: int)
    requires
        0 <= i <= entries.len(),
    ensures
        positions_of_type(entries, t).len() >= positions_of_type(entries.subrange(0, i), t).len(),
    decreases entries.len() - i,
{
    if i < entries.len() {
        lemma_positions_grow(entries, t, i + 1);
        assert(entries.subrange(0, i + 1).drop_last() =~= entries.subrange(0, i));
    } else {
        assert(entries.subrange(0, i) =~= entries);
    }
}

/// What a custom-property update reads of one custom property of an asset.
#[derive(Debug, Clone)]
pub struct CustomPropertyEntry {
    pub id: String,
    pub custom_asset_property_key_id: String,
    pub data_type: String,
    pub name: String,
    pub group_name: String,
}

/// The payload that sets the value of a custom property.
#[derive(Debug, Clone, Default)]
pub struct CustomAssetPropertyUpdateDto {
    pub id: String,
    pub custom_asset_property_key_id: String,
    pub data_type: String,
    pub value: String,
    pub group_name: String,
}

/// The position of the first entry named `name`, if any.
pub open spec fn first_named(entries: Seq<CustomPropertyEntry>, name: Seq<char>) -> Option<int>
    decreases entries.len(),
{
    if entries.len() == 0 {
        None
    } else if entries[0].name@ == name {
        Some(0)
    } else {
        match first_named(entries.subrange(1, entries.len() as int), name) {
            Some(k) => Some(k + 1),
            None => None,
        }
    }
}

proof fn lemma_first_named_prefix(entries: Seq<CustomPropertyEntry>, name: Seq<char>, i: int)
    requires
        0 <= i <= entries.len(),
        forall|j: int| 0 <= j < i ==> entries[j].name@ != name,
    ensures
        i < entries.len() && entries[i].name@ == name ==> first_named(entries, name) == Some(i),
        i == entries.len() ==> first_named(entries, name) is None,
    decreases i,
{
    if i > 0 {
        let t = entries.subrange(1, entries.len() as int);
        assert forall|j: int| 0 <= j < i - 1 implies t[j].name@ != name by {
            assert(t[j] == entries[j + 1]);
        }
        lemma_first_named_prefix(t, name, i - 1);
    }
}

/// The payload that sets custom property `name` of an asset to `new_value`,
/// built from the first custom property of that name; an asset without one
/// fails the update.
pub fn custom_property_update(
    entries: &Vec<CustomPropertyEntry>,
    name: &str,
    new_value: String,
) -> (r: Result<CustomAssetPropertyUpdateDto, AppError>)
    ensures
        match first_named(entries@, name@) {
            Some(k) => (r matches Ok(u) && u.id@ == entries@[k].id@
                && u.custom_asset_property_key_id@ == entries@[k].custom_asset_property_key_id@
                && u.data_type@ == entries@[k].data_type@ && u.group_name@
                == entries@[k].group_name@ && u.value@ == new_value@),
            None => (r matches Err(AppError::AssetDoesNotHavePropertyName(n)) && n@ == name@),
        },
{
    let mut i: usize = 0;
    while i < entries.len()
        invariant
            i <= entries.len(),
            forall|j: int| 0 <= j < i ==> entries@[j].name@ != name@,
        decreases entries.len() - i,
    {
        let e = &entries[i];
        if same_text(e.name.as_str(), name) {
            proof {
                lemma_first_named_prefix(entries@, name@, i as int);
            }
            return Ok(
                CustomAssetPropertyUpdateDto {
                    id: e.id.clone(),
                    custom_asset_property_key_id: e.custom_asset_property_key_id.clone(),
                    data_type: e.data_type.clone(),
                    value: new_value,
                    group_name: e.group_name.clone(),
                },
            );
        }
        i += 1;
    }
    proof {
        lemma_first_named_prefix(entries@, name@, entries@.len() as int);
    }
    Err(AppError::AssetDoesNotHavePropertyName(String::from_str(name)))
}

/// The name a bulk rename sets: the given text trimmed and without double
/// quotes.
pub open spec fn cleaned_name(raw: Seq<char>) -> Seq<char> {
    remove_all(trimmed(raw), '"')
}

/// The name to set from one bulk-rename row, or `None` when nothing is left of
/// it and the row is skipped.
pub fn clean_new_name(raw: &str) -> (r: Option<String>)
    ensures
        cleaned_name(raw@).len() == 0 ==> r is None,
        cleaned_name(raw@).len() > 0 ==> (r matches Some(s) && s@ == cleaned_name(raw@)),
{
    let trimmed_name = trim_text(raw);
    let name = remove_char(trimmed_name.as_str(), '"');
    if name.as_str().unicode_len() == 0 {
        None
    } else {
        Some(name)
    }
}

} // verus!
